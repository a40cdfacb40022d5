use clap::{App, Arg, ArgMatches};
use javap::cmd::disassemble::{Disassemble, ACC_PRIVATE, ACC_PROTECTED, ACC_PUBLIC};
use javap::constant_pool::{Constant, ConstantPool};
use javap::decoder::{DecodeError, InstructionRecord, Operands};
use javap::listing::{disassemble_code, CodeListing, ShownInstruction, ShownOperands};
use javap::misc::SysInfo;
use javap::opcode::OpCode;
use javap::resolver::{ResolveError, ResolvedOperand, SymbolKind};
use javap::sd::{CodeSerde, FieldInfoSerde, LineNumberSerde, MethodInfoSerde, SysInfoSerde};
use javap::stream::StreamError;
use javap::trans::{line_numbers, ClassSummary, FieldSummary, LineNumber, MethodSummary};

fn matches(args: &[&str]) -> ArgMatches<'static> {
    let mut line = vec!["javap"];
    line.extend_from_slice(args);
    App::new("javap")
        .arg(Arg::with_name("verbose").long("verbose"))
        .arg(Arg::with_name("line_number").long("line-number"))
        .arg(Arg::with_name("disassemble").long("disassemble"))
        .arg(Arg::with_name("sysinfo").long("sysinfo"))
        .arg(Arg::with_name("signatures").long("signatures"))
        .arg(Arg::with_name("public").long("public"))
        .arg(Arg::with_name("protected").long("protected"))
        .arg(Arg::with_name("private").long("private"))
        .get_matches_from(line)
}

fn settings(args: &[&str]) -> Disassemble {
    Disassemble::new(&matches(args)).unwrap()
}

const QUIET: Disassemble = Disassemble {
    show_access_flags: 0,
    enable_verbose: false,
    enable_line_number: false,
    enable_code: false,
    enable_sys_info: false,
    enable_inner_signature: false,
};

#[test]
fn new_without_arguments() {
    assert_eq!(Disassemble::new(&matches(&[])), Some(QUIET));
}

#[test]
fn new_verbose_turns_everything_on() {
    assert_eq!(
        settings(&["--verbose"]),
        Disassemble {
            show_access_flags: 0,
            enable_verbose: true,
            enable_line_number: true,
            enable_code: true,
            enable_sys_info: true,
            enable_inner_signature: true,
        }
    );
}

#[test]
fn new_single_switches() {
    assert_eq!(settings(&["--line-number"]), Disassemble { enable_line_number: true, ..QUIET });
    assert_eq!(settings(&["--disassemble"]), Disassemble { enable_code: true, ..QUIET });
    assert_eq!(settings(&["--sysinfo"]), Disassemble { enable_sys_info: true, ..QUIET });
    assert_eq!(settings(&["--signatures"]), Disassemble { enable_inner_signature: true, ..QUIET });
    assert_eq!(
        settings(&["--disassemble", "--private"]),
        Disassemble { enable_code: true, show_access_flags: ACC_PRIVATE, ..QUIET }
    );
}

#[test]
fn access_flags_last_level_wins() {
    assert_eq!(Disassemble::build_show_access_flags(&matches(&[])), 0);
    assert_eq!(Disassemble::build_show_access_flags(&matches(&["--public"])), ACC_PUBLIC);
    assert_eq!(Disassemble::build_show_access_flags(&matches(&["--protected"])), ACC_PROTECTED);
    assert_eq!(Disassemble::build_show_access_flags(&matches(&["--private"])), ACC_PRIVATE);
    assert_eq!(
        Disassemble::build_show_access_flags(&matches(&["--public", "--protected"])),
        ACC_PROTECTED
    );
    assert_eq!(
        Disassemble::build_show_access_flags(&matches(&["--private", "--public", "--protected"])),
        ACC_PRIVATE
    );
    assert_eq!((ACC_PUBLIC, ACC_PRIVATE, ACC_PROTECTED), (1, 2, 4));
}

fn class(
    flags: &str,
    this: &str,
    sup: &str,
    interfaces: &[&str],
    is_interface: bool,
    is_enum: bool,
) -> ClassSummary {
    ClassSummary {
        access_flags: flags.to_string(),
        this_class: this.to_string(),
        super_class: sup.to_string(),
        parent_interfaces: interfaces.iter().map(|s| s.to_string()).collect(),
        is_interface,
        is_enum,
        source_file: "A.java".to_string(),
        constant_pool: pool(),
        fields: vec![],
        methods: vec![],
    }
}

#[test]
fn class_head_plain_class() {
    let c = class("public class", "a.B", "java.lang.Object", &[], false, false);
    assert_eq!(QUIET.build_class_define(&c), "public class a.B");
    let c = class("public class", "a.B", "a.C", &[], false, false);
    assert_eq!(QUIET.build_class_define(&c), "public class a.B extends a.C");
    let c = class("final class", "a.B", "java.lang.Object", &["a.I"], false, false);
    assert_eq!(QUIET.build_class_define(&c), "final class a.B implements a.I");
    let c = class("class", "B", "C", &["I", "J", "K"], false, false);
    assert_eq!(QUIET.build_class_define(&c), "class B extends C implements I, J, K");
}

#[test]
fn class_head_interface_and_enum() {
    let c = class("public interface", "a.I", "java.lang.Object", &[], true, false);
    assert_eq!(QUIET.build_class_define(&c), "public interface a.I");
    let c = class("public interface", "a.I", "java.lang.Object", &["a.J", "a.K"], true, false);
    assert_eq!(QUIET.build_class_define(&c), "public interface a.I extends a.J, a.K");
    let c = class("public final class", "a.E", "java.lang.Enum", &["a.I"], false, true);
    assert_eq!(
        QUIET.build_class_define(&c),
        "public final class a.E extends java.lang.Enum<a.E>"
    );
    // an interface flag goes before an enum flag
    let c = class("x", "a.E", "java.lang.Enum", &[], true, true);
    assert_eq!(QUIET.build_class_define(&c), "x a.E");
}

fn sys_info() -> SysInfo {
    SysInfo {
        class_file: "/tmp/A.class".to_string(),
        last_modified: "2020-01-01".to_string(),
        size: 1234,
        checksum: "abcdef".to_string(),
    }
}

#[test]
fn sys_info_only_when_enabled() {
    let on = Disassemble { enable_sys_info: true, ..QUIET };
    assert_eq!(
        on.build_sys_info(&sys_info(), &"A.java".to_string()),
        SysInfoSerde {
            class_file: "/tmp/A.class".to_string(),
            last_modified: "2020-01-01".to_string(),
            size: 1234,
            checksum: "abcdef".to_string(),
            compiled_from: "A.java".to_string(),
        }
    );
    assert_eq!(QUIET.build_sys_info(&sys_info(), &"A.java".to_string()), SysInfoSerde::default());
    assert_eq!(
        SysInfoSerde::default(),
        SysInfoSerde {
            class_file: String::new(),
            last_modified: String::new(),
            size: 0,
            checksum: String::new(),
            compiled_from: String::new(),
        }
    );
}

fn utf8(s: &str) -> Constant {
    Constant::Utf8(s.as_bytes().to_vec())
}

// 1 "java/io/PrintStream"  2 Class #1  3 "println"  4 "(Ljava/lang/String;)V"
// 5 NameAndType #3 #4  6 Methodref #2 #5
fn pool() -> ConstantPool {
    ConstantPool {
        entries: vec![
            Constant::Unusable,
            utf8("java/io/PrintStream"),
            Constant::ClassRef { name_index: 1 },
            utf8("println"),
            utf8("(Ljava/lang/String;)V"),
            Constant::NameAndType { name_index: 3, descriptor_index: 4 },
            Constant::MethodRef { class_index: 2, name_and_type_index: 5 },
        ],
    }
}

fn field(access_flags: u16, desc: &str) -> FieldSummary {
    FieldSummary { access_flags, desc: desc.to_string(), signature: "I".to_string() }
}

#[test]
fn fields_carry_the_signature_setting() {
    let fields = vec![field(ACC_PUBLIC, "int x;"), field(0, "int y;")];
    let on = Disassemble { enable_inner_signature: true, ..QUIET };
    assert_eq!(
        on.class_fields(&fields),
        vec![
            FieldInfoSerde {
                desc: "int x;".to_string(),
                signature: "I".to_string(),
                enable_inner_signature: true,
            },
            FieldInfoSerde {
                desc: "int y;".to_string(),
                signature: "I".to_string(),
                enable_inner_signature: true,
            },
        ]
    );
    assert_eq!(QUIET.class_fields(&fields)[1].enable_inner_signature, false);
    assert_eq!(QUIET.class_fields(&vec![]), vec![]);
}

fn shown_descs(settings: Disassemble, fields: &Vec<FieldSummary>) -> Vec<String> {
    settings.class_fields(fields).into_iter().map(|f| f.desc).collect()
}

#[test]
fn members_are_shown_down_to_the_access_level() {
    let fields = vec![
        field(ACC_PUBLIC, "public"),
        field(ACC_PROTECTED | 0x0008, "protected"),
        field(0x0010, "package"),
        field(ACC_PRIVATE, "private"),
    ];
    let level = |flags: u16| Disassemble { show_access_flags: flags, ..QUIET };
    assert_eq!(shown_descs(level(ACC_PUBLIC), &fields), vec!["public"]);
    assert_eq!(shown_descs(level(ACC_PROTECTED), &fields), vec!["public", "protected"]);
    assert_eq!(shown_descs(level(0), &fields), vec!["public", "protected", "package"]);
    assert_eq!(
        shown_descs(level(ACC_PRIVATE), &fields),
        vec!["public", "protected", "package", "private"]
    );
    assert!(level(0).is_shown(0));
    assert!(!level(0).is_shown(ACC_PRIVATE));
    assert!(!level(ACC_PUBLIC).is_shown(ACC_PROTECTED));
    assert!(level(ACC_PRIVATE).is_shown(ACC_PRIVATE));
    let methods = vec![
        MethodSummary { access_flags: ACC_PRIVATE, ..method(vec![0xb1]) },
        MethodSummary { access_flags: ACC_PUBLIC, desc: "shown".to_string(), ..method(vec![0xb1]) },
    ];
    let shown = level(ACC_PUBLIC).build_methods(false, &methods, &pool());
    assert_eq!(shown.len(), 1);
    assert_eq!(shown[0].desc, "shown");
    assert_eq!(level(ACC_PRIVATE).build_methods(false, &methods, &pool()).len(), 2);
}

fn method(code: Vec<u8>) -> MethodSummary {
    MethodSummary {
        access_flags: ACC_PUBLIC,
        desc: "void run();".to_string(),
        line_num_table: vec![
            LineNumber { start_pc: 0, number: 10 },
            LineNumber { start_pc: 4, number: 11 },
        ],
        max_stack: 2,
        max_locals: 1,
        code,
        signature: "()V".to_string(),
    }
}

fn plain(pc: usize, opcode: OpCode, raw_operands: Operands, byte_length: usize) -> InstructionRecord {
    InstructionRecord { program_counter: pc, opcode, wide: false, raw_operands, byte_length }
}

fn shown(record: InstructionRecord, operands: Vec<ResolvedOperand>) -> ShownInstruction {
    ShownInstruction { record, operands: ShownOperands::Resolved(operands) }
}

const CODE: Disassemble = Disassemble { enable_code: true, ..QUIET };

fn listing_of(code: Vec<u8>) -> CodeListing {
    let methods = CODE.build_methods(false, &vec![method(code)], &pool());
    assert_eq!(methods.len(), 1);
    methods[0].code.codes.clone()
}

#[test]
fn methods_of_an_interface_show_no_code() {
    let all = Disassemble {
        enable_verbose: true,
        enable_line_number: true,
        enable_code: true,
        enable_inner_signature: true,
        ..QUIET
    };
    assert_eq!(
        all.build_methods(true, &vec![method(vec![0xb1])], &pool()),
        vec![MethodInfoSerde {
            desc: "void run();".to_string(),
            line_number_table: vec![],
            code: CodeSerde::default(),
            signature: "()V".to_string(),
            enable_line_number: false,
            enable_code: false,
            enable_inner_signature: true,
        }]
    );
}

#[test]
fn methods_of_a_class_follow_the_settings() {
    let all = Disassemble {
        enable_verbose: true,
        enable_line_number: true,
        enable_code: true,
        enable_inner_signature: false,
        ..QUIET
    };
    let code = vec![0x2a, 0xb1];
    let methods = all.build_methods(false, &vec![method(code.clone()), method(code.clone())], &pool());
    assert_eq!(methods.len(), 2);
    assert_eq!(
        methods[1],
        MethodInfoSerde {
            desc: "void run();".to_string(),
            line_number_table: vec![
                LineNumberSerde { start_pc: 0, line_number: 10 },
                LineNumberSerde { start_pc: 4, line_number: 11 },
            ],
            code: CodeSerde {
                max_stack: 2,
                max_locals: 1,
                codes: CodeListing::Decoded(vec![
                    shown(plain(0, OpCode::aload_0, Operands::Absent, 1), vec![]),
                    shown(plain(1, OpCode::return_void, Operands::Absent, 1), vec![]),
                ]),
                enable_verbose: true,
            },
            signature: "()V".to_string(),
            enable_line_number: true,
            enable_code: true,
            enable_inner_signature: false,
        }
    );
    let methods = CODE.build_methods(false, &vec![method(code.clone())], &pool());
    assert_eq!(methods[0].line_number_table, vec![]);
    assert!(!methods[0].code.enable_verbose);
    assert!(methods[0].enable_code && !methods[0].enable_line_number);
    let lines_only = Disassemble { enable_line_number: true, ..QUIET };
    let methods = lines_only.build_methods(false, &vec![method(code)], &pool());
    assert_eq!(methods[0].line_number_table.len(), 2);
    assert_eq!(methods[0].code, CodeSerde::default());
    assert_eq!(QUIET.build_methods(false, &vec![], &pool()), vec![]);
    assert_eq!(
        CODE.build_method(false, &method(vec![0xb1]), &pool()),
        CODE.build_methods(false, &vec![method(vec![0xb1])], &pool())[0]
    );
}

#[test]
fn method_without_code_shows_an_empty_listing() {
    assert_eq!(listing_of(vec![]), CodeListing::Decoded(vec![]));
    assert_eq!(disassemble_code(&[], &pool()), CodeListing::Decoded(vec![]));
}

fn words(opcode: u8, values: &[i32]) -> Vec<u8> {
    let mut code = vec![opcode, 0, 0, 0];
    for v in values {
        code.extend_from_slice(&v.to_be_bytes());
    }
    code
}

#[test]
fn method_with_a_table_switch_shows_three_cases_and_a_default() {
    let code = words(0xaa, &[40, 0, 2, 28, 31, 34]);
    assert_eq!(code.len(), 28);
    let listing = listing_of(code);
    let instructions = match listing {
        CodeListing::Decoded(instructions) => instructions,
        other => panic!("{:?}", other),
    };
    assert_eq!(instructions.len(), 1);
    assert_eq!(instructions[0].record.opcode, OpCode::tableswitch);
    assert_eq!(
        instructions[0].operands,
        ShownOperands::Resolved(vec![ResolvedOperand::Switch {
            default_target: 40,
            cases: vec![(0, 28), (1, 31), (2, 34)],
        }])
    );
}

#[test]
fn method_with_an_unordered_lookup_switch_shows_it_ascending() {
    let mut code = words(0xab, &[30, 2, 5, 24, 1, 25]);
    code.push(0xb1);
    let instructions = match listing_of(code) {
        CodeListing::Decoded(instructions) => instructions,
        other => panic!("{:?}", other),
    };
    assert_eq!(instructions.len(), 2);
    assert_eq!(
        instructions[0].record.raw_operands,
        Operands::LookupSwitch { default: 30, pairs: vec![(5, 24), (1, 25)] }
    );
    assert_eq!(
        instructions[0].operands,
        ShownOperands::Resolved(vec![ResolvedOperand::Switch {
            default_target: 30,
            cases: vec![(1, 25), (5, 24)],
        }])
    );
}

#[test]
fn method_reference_shows_class_name_and_descriptor() {
    let listing = listing_of(vec![0xb6, 0x00, 0x06, 0xb1]);
    assert_eq!(
        listing,
        CodeListing::Decoded(vec![
            shown(
                plain(0, OpCode::invokevirtual, Operands::ConstantPoolIndex(6), 3),
                vec![ResolvedOperand::Symbol {
                    kind: SymbolKind::Method,
                    text: b"java/io/PrintStream.println:(Ljava/lang/String;)V".to_vec(),
                }]
            ),
            shown(plain(3, OpCode::return_void, Operands::Absent, 1), vec![]),
        ])
    );
}

#[test]
fn unresolved_reference_keeps_its_record() {
    let listing = listing_of(vec![0xb2, 0x00, 0x06, 0xb1]);
    assert_eq!(
        listing,
        CodeListing::Decoded(vec![
            ShownInstruction {
                record: plain(0, OpCode::getstatic, Operands::ConstantPoolIndex(6), 3),
                operands: ShownOperands::Unresolved(ResolveError::InvalidConstantPoolReference {
                    index: 6
                }),
            },
            shown(plain(3, OpCode::return_void, Operands::Absent, 1), vec![]),
        ])
    );
}

#[test]
fn truncated_method_fails_alone() {
    let good = method(vec![0x2a, 0xb1]);
    let bad = method(vec![0x03, 0x11, 0x00]);
    let both = CODE.build_methods(false, &vec![bad.clone(), good.clone()], &pool());
    let alone = CODE.build_methods(false, &vec![good], &pool());
    assert_eq!(both.len(), 2);
    assert_eq!(
        both[0].code.codes,
        CodeListing::Failed(StreamError { program_counter: 1, kind: DecodeError::TruncatedOperand })
    );
    assert_eq!(both[0].desc, bad.desc);
    assert_eq!(both[1], alone[0]);
}

#[test]
fn line_number_tables_from_bytes() {
    assert_eq!(line_numbers(&[0, 0]), Some(vec![]));
    assert_eq!(
        line_numbers(&[0, 2, 0, 0, 0, 10, 0x01, 0x02, 0xff, 0xff]),
        Some(vec![
            LineNumber { start_pc: 0, number: 10 },
            LineNumber { start_pc: 0x0102, number: 0xffff },
        ])
    );
    assert_eq!(line_numbers(&[]), None);
    assert_eq!(line_numbers(&[0]), None);
    assert_eq!(line_numbers(&[0, 1]), None);
    assert_eq!(line_numbers(&[0, 1, 0, 0, 0]), None);
    assert_eq!(line_numbers(&[0, 1, 0, 0, 0, 1, 0]), None);
    assert_eq!(line_numbers(&[0, 0, 0, 0, 0, 1]), None);
}

#[test]
fn code_default_is_empty() {
    assert_eq!(
        CodeSerde::default(),
        CodeSerde {
            max_stack: 0,
            max_locals: 0,
            codes: CodeListing::Decoded(vec![]),
            enable_verbose: false,
        }
    );
}

#[test]
fn class_info_puts_the_parts_together() {
    let mut c = class("public class", "a.B", "a.C", &["a.I"], false, false);
    c.fields = vec![field(ACC_PUBLIC, "int x;"), field(ACC_PRIVATE, "int hidden;")];
    c.methods = vec![method(vec![0xb6, 0x00, 0x06, 0xb1])];
    let s = Disassemble { enable_sys_info: true, enable_code: true, ..QUIET };
    let info = s.build_class_info(&sys_info(), &c);
    assert!(info.enable_sys_info);
    assert_eq!(info.sys_info.compiled_from, "A.java");
    assert_eq!(info.sys_info.size, 1234);
    assert_eq!(info.source_file, "A.java");
    assert_eq!(info.class_head, "public class a.B extends a.C implements a.I");
    assert_eq!(info.fields, s.class_fields(&c.fields));
    assert_eq!(info.fields.len(), 1);
    assert_eq!(info.methods, s.build_methods(false, &c.methods, &c.constant_pool));
    assert_eq!(info.methods[0].code.codes, disassemble_code(&c.methods[0].code, &c.constant_pool));
    let info = QUIET.build_class_info(&sys_info(), &c);
    assert!(!info.enable_sys_info);
    assert_eq!(info.sys_info, SysInfoSerde::default());
}
