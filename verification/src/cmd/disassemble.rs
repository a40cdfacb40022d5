//! The disassemble command: which parts of a class the listing shows, and
//! the assembly of those parts from what is known of the class.

use crate::constant_pool::{Constant, ConstantPool};
use crate::listing::{disassemble_code, listing_spec};
use crate::misc::SysInfo;
use crate::sd::{
    ClassInfoSerde, CodeSerde, CodeView, FieldInfoSerde, FieldInfoView, LineNumberSerde,
    MethodInfoSerde, MethodInfoView, SysInfoSerde, SysInfoView,
};
use crate::trans::{ClassSummary, FieldSummary, LineNumber, MethodSummary};
use vstd::prelude::*;
use vstd::string::StringExecFns;

verus! {

/// The arguments that a command line was matched to, as `clap` holds them.
#[verifier::external_type_specification]
#[verifier::external_body]
pub struct ExArgMatches<'a>(clap::ArgMatches<'a>);

/// The names that the matches answer for: those of the arguments that were
/// present on the command line, and that of the subcommand, if any.
pub uninterp spec fn present_names(matches: clap::ArgMatches<'static>) -> Set<Seq<char>>;

/// `ArgMatches::is_present` of `clap`: whether an argument of this name was
/// present on the command line, or the subcommand has this name.
#[verifier::external_body]
fn is_present<'a>(matches: &clap::ArgMatches<'a>, name: &str) -> (present: bool)
    ensures
        present == present_names(*matches).contains(name@),
{
    matches.is_present(name)
}

/// Members that are declared public.
pub const ACC_PUBLIC: u16 = 0x0001;

/// Members that are declared private.
pub const ACC_PRIVATE: u16 = 0x0002;

/// Members that are declared protected.
pub const ACC_PROTECTED: u16 = 0x0004;

/// What the listing of a class shows.
#[derive(Clone, Copy, Debug, PartialEq, Eq, Structural)]
pub struct Disassemble {
    pub show_access_flags: u16,
    pub enable_verbose: bool,
    pub enable_line_number: bool,
    pub enable_code: bool,
    pub enable_sys_info: bool,
    pub enable_inner_signature: bool,
}

/// The access level down to which members are shown: that of the last of
/// `public`, `protected` and `private`, in this order, that is present;
/// zero if none is.
pub open spec fn shown_access_flags(present: Set<Seq<char>>) -> u16 {
    if present.contains("private"@) {
        ACC_PRIVATE
    } else if present.contains("protected"@) {
        ACC_PROTECTED
    } else if present.contains("public"@) {
        ACC_PUBLIC
    } else {
        0
    }
}

/// The settings that a set of present arguments asks for. `verbose` turns
/// on everything that `line_number`, `disassemble`, `sysinfo` and
/// `signatures` turn on one by one.
pub open spec fn settings_of(present: Set<Seq<char>>) -> Disassemble {
    let verbose = present.contains("verbose"@);
    Disassemble {
        show_access_flags: shown_access_flags(present),
        enable_verbose: verbose,
        enable_line_number: verbose || present.contains("line_number"@),
        enable_code: verbose || present.contains("disassemble"@),
        enable_sys_info: verbose || present.contains("sysinfo"@),
        enable_inner_signature: verbose || present.contains("signatures"@),
    }
}

impl Disassemble {
    /// The settings that the command line asks for.
    pub fn new<'a>(m: &clap::ArgMatches<'a>) -> (settings: Option<Self>)
        ensures
            settings == Some(settings_of(present_names(*m))),
    {
        let acc_flags: u16 = Self::build_show_access_flags(m);
        let enable_verbose: bool = is_present(m, "verbose");
        let enable_line_number: bool = enable_verbose || is_present(m, "line_number");
        let enable_code: bool = enable_verbose || is_present(m, "disassemble");
        let enable_sys_info: bool = enable_verbose || is_present(m, "sysinfo");
        let enable_inner_signature: bool = enable_verbose || is_present(m, "signatures");
        Some(
            Disassemble {
                show_access_flags: acc_flags,
                enable_verbose,
                enable_line_number,
                enable_code,
                enable_sys_info,
                enable_inner_signature,
            },
        )
    }

    /// The access level down to which members are shown.
    pub fn build_show_access_flags<'a>(m: &clap::ArgMatches<'a>) -> (flags: u16)
        ensures
            flags == shown_access_flags(present_names(*m)),
    {
        let mut flags: u16 = 0;
        if is_present(m, "public") {
            flags = ACC_PUBLIC;
        }
        if is_present(m, "protected") {
            flags = ACC_PROTECTED;
        }
        if is_present(m, "private") {
            flags = ACC_PRIVATE;
        }
        flags
    }
}

/// The texts of a sequence of strings.
pub open spec fn texts(strings: Seq<String>) -> Seq<Seq<char>> {
    Seq::new(strings.len(), |i: int| strings[i]@)
}

/// The parts with the separator between each two of them.
pub open spec fn joined(parts: Seq<Seq<char>>, separator: Seq<char>) -> Seq<char>
    decreases parts.len(),
{
    if parts.len() == 0 {
        Seq::empty()
    } else if parts.len() == 1 {
        parts[0]
    } else {
        joined(parts.drop_last(), separator) + separator + parts.last()
    }
}

/// The parts of the head of a class: its modifiers and its name, then what
/// it extends and implements. An interface extends its parent interfaces.
/// An enum extends its super class with its own name as the argument. Any
/// other class extends its super class unless that is `java.lang.Object`,
/// and implements its interfaces. Interfaces are separated by a comma and a
/// space.
pub open spec fn class_head_parts(class: &ClassSummary) -> Seq<Seq<char>> {
    let start = seq![class.access_flags@, class.this_class@];
    let interfaces = joined(texts(class.parent_interfaces@), ", "@);
    if class.is_interface {
        if class.parent_interfaces@.len() != 0 {
            start + seq!["extends"@, interfaces]
        } else {
            start
        }
    } else if class.is_enum {
        start + seq!["extends"@, class.super_class@ + "<"@ + class.this_class@ + ">"@]
    } else {
        let extended = if class.super_class@ != "java.lang.Object"@ {
            start + seq!["extends"@, class.super_class@]
        } else {
            start
        };
        if class.parent_interfaces@.len() != 0 {
            extended + seq!["implements"@, interfaces]
        } else {
            extended
        }
    }
}

/// The head of a class: its parts with one space between each two.
pub open spec fn class_head(class: &ClassSummary) -> Seq<char> {
    joined(class_head_parts(class), " "@)
}

/// Whether a member with these access flags is shown. With the level
/// `private` every member is shown; with `protected` the public and the
/// protected ones; with `public` the public ones; with no level every
/// member that is not private.
pub open spec fn shows(settings: Disassemble, access_flags: u16) -> bool {
    if settings.show_access_flags == ACC_PRIVATE {
        true
    } else if settings.show_access_flags == ACC_PROTECTED {
        access_flags & ACC_PUBLIC != 0 || access_flags & ACC_PROTECTED != 0
    } else if settings.show_access_flags == ACC_PUBLIC {
        access_flags & ACC_PUBLIC != 0
    } else {
        access_flags & ACC_PRIVATE == 0
    }
}

/// A field as the listing shows it under the given settings.
pub open spec fn shown_field(settings: Disassemble, field: &FieldSummary) -> FieldInfoView {
    FieldInfoView {
        desc: field.desc@,
        signature: field.signature@,
        enable_inner_signature: settings.enable_inner_signature,
    }
}

/// The fields that the listing shows, in their order: those whose access
/// flags the settings admit.
pub open spec fn shown_fields(settings: Disassemble, fields: Seq<FieldSummary>) -> Seq<
    FieldInfoView,
>
    decreases fields.len(),
{
    if fields.len() == 0 {
        Seq::empty()
    } else {
        let front = shown_fields(settings, fields.drop_last());
        if shows(settings, fields.last().access_flags) {
            front.push(shown_field(settings, &fields.last()))
        } else {
            front
        }
    }
}

/// The values of a sequence of shown fields.
pub open spec fn field_views(shown: Seq<FieldInfoSerde>) -> Seq<FieldInfoView> {
    Seq::new(shown.len(), |i: int| shown[i]@)
}

/// The lines of a line-number table as the listing shows them.
pub open spec fn shown_lines(table: Seq<LineNumber>) -> Seq<LineNumberSerde> {
    Seq::new(
        table.len(),
        |i: int| (LineNumberSerde { start_pc: table[i].start_pc, line_number: table[i].number }),
    )
}

/// A method as the listing shows it under the given settings. Of a method
/// of an interface only the declaration and the signature are shown. Of
/// any other method the line numbers and the code are shown where the
/// settings ask for them. The code is the listing of the method's bytes
/// against the constant pool of the class, with the limits of its frame
/// and the verbose flag of the settings; a method whose bytes do not decode
/// shows the failure and its program counter in place of instructions.
pub open spec fn shown_method(
    settings: Disassemble,
    is_interface: bool,
    method: &MethodSummary,
    pool: Seq<Constant>,
) -> MethodInfoView {
    if is_interface {
        MethodInfoView {
            desc: method.desc@,
            line_number_table: Seq::empty(),
            code: CodeView::empty(),
            signature: method.signature@,
            enable_line_number: false,
            enable_code: false,
            enable_inner_signature: settings.enable_inner_signature,
        }
    } else {
        MethodInfoView {
            desc: method.desc@,
            line_number_table: if settings.enable_line_number {
                shown_lines(method.line_num_table@)
            } else {
                Seq::empty()
            },
            code: if settings.enable_code {
                CodeView {
                    max_stack: method.max_stack,
                    max_locals: method.max_locals,
                    codes: listing_spec(method.code@, pool),
                    enable_verbose: settings.enable_verbose,
                }
            } else {
                CodeView::empty()
            },
            signature: method.signature@,
            enable_line_number: settings.enable_line_number,
            enable_code: settings.enable_code,
            enable_inner_signature: settings.enable_inner_signature,
        }
    }
}

/// The methods that the listing shows, in their order: those whose access
/// flags the settings admit, each made from its own summary alone.
pub open spec fn shown_methods(
    settings: Disassemble,
    is_interface: bool,
    methods: Seq<MethodSummary>,
    pool: Seq<Constant>,
) -> Seq<MethodInfoView>
    decreases methods.len(),
{
    if methods.len() == 0 {
        Seq::empty()
    } else {
        let front = shown_methods(settings, is_interface, methods.drop_last(), pool);
        if shows(settings, methods.last().access_flags) {
            front.push(shown_method(settings, is_interface, &methods.last(), pool))
        } else {
            front
        }
    }
}

/// The values of a sequence of shown methods.
pub open spec fn method_views(shown: Seq<MethodInfoSerde>) -> Seq<MethodInfoView> {
    Seq::new(shown.len(), |i: int| shown[i]@)
}

/// The header of a listing under the given settings: the facts about the
/// file and the source file of the class where the settings ask for the
/// header, and nothing otherwise.
pub open spec fn shown_sys_info(settings: Disassemble, si: &SysInfo, source_file: Seq<char>)
    -> SysInfoView {
    if settings.enable_sys_info {
        SysInfoView {
            class_file: si.class_file@,
            last_modified: si.last_modified@,
            size: si.size,
            checksum: si.checksum@,
            compiled_from: source_file,
        }
    } else {
        SysInfoView::empty()
    }
}

/// Where the settings admit every method, each method is shown, in its
/// place, and what is shown of it is made from its own summary alone: no
/// method changes what is shown of another.
pub proof fn lemma_each_method_shown_alone(
    settings: Disassemble,
    is_interface: bool,
    methods: Seq<MethodSummary>,
    pool: Seq<Constant>,
)
    requires
        forall|i: int| 0 <= i < methods.len() ==> shows(settings, (#[trigger] methods[i]).access_flags),
    ensures
        shown_methods(settings, is_interface, methods, pool).len() == methods.len(),
        forall|i: int|
            0 <= i < methods.len() ==> #[trigger] shown_methods(
                settings,
                is_interface,
                methods,
                pool,
            )[i] == shown_method(settings, is_interface, &methods[i], pool),
    decreases methods.len(),
{
    if methods.len() > 0 {
        let front = methods.drop_last();
        assert forall|i: int| 0 <= i < front.len() implies shows(
            settings,
            (#[trigger] front[i]).access_flags,
        ) by {
            assert(front[i] == methods[i]);
        }
        lemma_each_method_shown_alone(settings, is_interface, front, pool);
        assert(shows(settings, methods[methods.len() - 1].access_flags));
        assert forall|i: int| 0 <= i < methods.len() implies #[trigger] shown_methods(
            settings,
            is_interface,
            methods,
            pool,
        )[i] == shown_method(settings, is_interface, &methods[i], pool) by {
            if i < front.len() {
                assert(front[i] == methods[i]);
            }
        }
    }
}

/// The strings with the separator between each two of them.
fn join(parts: &Vec<String>, separator: &str) -> (text: String)
    ensures
        text@ == joined(texts(parts@), separator@),
{
    let ghost all = texts(parts@);
    let mut text: String = String::new();
    let mut i: usize = 0;
    assert(all.take(0) =~= Seq::empty());
    while i < parts.len()
        invariant
            i <= parts@.len(),
            all == texts(parts@),
            text@ == joined(all.take(i as int), separator@),
        decreases parts@.len() - i,
    {
        let ghost before = text@;
        if i > 0 {
            text.append(separator);
        }
        text.append(parts[i].as_str());
        proof {
            let next = all.take(i + 1);
            assert(next.drop_last() =~= all.take(i as int));
            assert(next.last() == parts@[i as int]@);
            if i == 0 {
                assert(before =~= Seq::empty());
                assert(text@ =~= next[0]);
            }
        }
        i += 1;
    }
    assert(all.take(parts@.len() as int) =~= all);
    text
}

impl Disassemble {
    /// Whether a member with these access flags is shown.
    pub fn is_shown(&self, access_flags: u16) -> (yes: bool)
        ensures
            yes == shows(*self, access_flags),
    {
        if self.show_access_flags == ACC_PRIVATE {
            true
        } else if self.show_access_flags == ACC_PROTECTED {
            access_flags & ACC_PUBLIC != 0 || access_flags & ACC_PROTECTED != 0
        } else if self.show_access_flags == ACC_PUBLIC {
            access_flags & ACC_PUBLIC != 0
        } else {
            access_flags & ACC_PRIVATE == 0
        }
    }

    /// The fields of a class as the listing shows them: those that the
    /// settings admit, each with its declaration and signature, and with
    /// the setting for signatures.
    pub fn class_fields(&self, fields: &Vec<FieldSummary>) -> (shown: Vec<FieldInfoSerde>)
        ensures
            field_views(shown@) == shown_fields(*self, fields@),
    {
        let mut shown: Vec<FieldInfoSerde> = Vec::new();
        let mut i: usize = 0;
        assert(fields@.take(0) =~= Seq::empty());
        assert(field_views(shown@) =~= Seq::empty());
        while i < fields.len()
            invariant
                i <= fields@.len(),
                field_views(shown@) == shown_fields(*self, fields@.take(i as int)),
            decreases fields@.len() - i,
        {
            let ghost before = field_views(shown@);
            proof {
                let next = fields@.take(i + 1);
                assert(next.drop_last() =~= fields@.take(i as int));
                assert(next.last() == fields@[i as int]);
            }
            if self.is_shown(fields[i].access_flags) {
                shown.push(
                    FieldInfoSerde {
                        desc: fields[i].desc.clone(),
                        signature: fields[i].signature.clone(),
                        enable_inner_signature: self.enable_inner_signature,
                    },
                );
                assert(field_views(shown@) =~= before.push(shown_field(*self, &fields@[i as int])));
            }
            i += 1;
        }
        assert(fields@.take(fields@.len() as int) =~= fields@);
        shown
    }

    /// The head of a class, as in `public class a.B extends a.C implements
    /// a.D, a.E`.
    pub fn build_class_define(&self, class: &ClassSummary) -> (head: String)
        ensures
            head@ == class_head(class),
    {
        let mut head_parts: Vec<String> = Vec::new();
        head_parts.push(class.access_flags.clone());
        head_parts.push(class.this_class.clone());
        assert(texts(head_parts@) =~= seq![class.access_flags@, class.this_class@]);
        if class.is_interface {
            if class.parent_interfaces.len() != 0 {
                head_parts.push(String::from_str("extends"));
                head_parts.push(join(&class.parent_interfaces, ", "));
            }
        } else if class.is_enum {
            head_parts.push(String::from_str("extends"));
            let mut super_class: String = class.super_class.clone();
            super_class.append("<");
            super_class.append(class.this_class.as_str());
            super_class.append(">");
            head_parts.push(super_class);
        } else {
            let object: String = String::from_str("java.lang.Object");
            if !(class.super_class == object) {
                head_parts.push(String::from_str("extends"));
                head_parts.push(class.super_class.clone());
            }
            assert(texts(head_parts@) =~= if class.super_class@ != "java.lang.Object"@ {
                seq![class.access_flags@, class.this_class@] + seq![
                    "extends"@,
                    class.super_class@,
                ]
            } else {
                seq![class.access_flags@, class.this_class@]
            });
            if class.parent_interfaces.len() != 0 {
                head_parts.push(String::from_str("implements"));
                head_parts.push(join(&class.parent_interfaces, ", "));
            }
        }
        assert(texts(head_parts@) =~= class_head_parts(class));
        join(&head_parts, " ")
    }

    /// The header of the listing.
    pub fn build_sys_info(&self, si: &SysInfo, source_file: &String) -> (info: SysInfoSerde)
        ensures
            info@ == shown_sys_info(*self, si, source_file@),
    {
        if self.enable_sys_info {
            SysInfoSerde {
                class_file: si.class_file.clone(),
                last_modified: si.last_modified.clone(),
                size: si.size,
                checksum: si.checksum.clone(),
                compiled_from: source_file.clone(),
            }
        } else {
            SysInfoSerde::default()
        }
    }

    /// One method as the listing shows it. Where the settings ask for the
    /// code of a method of a class, its bytes are decoded and resolved
    /// against the pool.
    pub fn build_method(&self, is_interface: bool, it: &MethodSummary, pool: &ConstantPool) -> (method:
        MethodInfoSerde)
        ensures
            method@ == shown_method(*self, is_interface, it, pool@),
    {
        if is_interface {
            MethodInfoSerde {
                desc: it.desc.clone(),
                line_number_table: Vec::new(),
                code: CodeSerde::default(),
                signature: it.signature.clone(),
                enable_line_number: false,
                enable_code: false,
                enable_inner_signature: self.enable_inner_signature,
            }
        } else {
            let line_number_table: Vec<LineNumberSerde> = if self.enable_line_number {
                Self::line_numbers(&it.line_num_table)
            } else {
                Vec::new()
            };
            let code: CodeSerde = if self.enable_code {
                CodeSerde {
                    max_stack: it.max_stack,
                    max_locals: it.max_locals,
                    codes: disassemble_code(it.code.as_slice(), pool),
                    enable_verbose: self.enable_verbose,
                }
            } else {
                CodeSerde::default()
            };
            MethodInfoSerde {
                desc: it.desc.clone(),
                line_number_table,
                code,
                signature: it.signature.clone(),
                enable_line_number: self.enable_line_number,
                enable_code: self.enable_code,
                enable_inner_signature: self.enable_inner_signature,
            }
        }
    }

    /// The methods of a class as the listing shows them, in their order:
    /// those that the settings admit. Each is made from its own bytes
    /// alone, so a method that does not decode shows its failure and leaves
    /// the others as they are.
    pub fn build_methods(
        &self,
        is_interface: bool,
        methods: &Vec<MethodSummary>,
        pool: &ConstantPool,
    ) -> (shown: Vec<MethodInfoSerde>)
        ensures
            method_views(shown@) == shown_methods(*self, is_interface, methods@, pool@),
            (forall|i: int|
                0 <= i < methods@.len() ==> shows(*self, (#[trigger] methods@[i]).access_flags))
                ==> shown@.len() == methods@.len() && forall|i: int|
                0 <= i < methods@.len() ==> (#[trigger] shown@[i])@ == shown_method(
                    *self,
                    is_interface,
                    &methods@[i],
                    pool@,
                ),
    {
        proof {
            if forall|i: int|
                0 <= i < methods@.len() ==> shows(*self, (#[trigger] methods@[i]).access_flags) {
                lemma_each_method_shown_alone(*self, is_interface, methods@, pool@);
            }
        }
        let mut shown: Vec<MethodInfoSerde> = Vec::new();
        let mut i: usize = 0;
        assert(methods@.take(0) =~= Seq::empty());
        assert(method_views(shown@) =~= Seq::empty());
        while i < methods.len()
            invariant
                i <= methods@.len(),
                method_views(shown@) == shown_methods(
                    *self,
                    is_interface,
                    methods@.take(i as int),
                    pool@,
                ),
            decreases methods@.len() - i,
        {
            let ghost before = method_views(shown@);
            proof {
                let next = methods@.take(i + 1);
                assert(next.drop_last() =~= methods@.take(i as int));
                assert(next.last() == methods@[i as int]);
            }
            if self.is_shown(methods[i].access_flags) {
                let method = self.build_method(is_interface, &methods[i], pool);
                shown.push(method);
                assert(method_views(shown@) =~= before.push(
                    shown_method(*self, is_interface, &methods@[i as int], pool@),
                ));
            }
            i += 1;
        }
        assert(methods@.take(methods@.len() as int) =~= methods@);
        assert forall|i: int| 0 <= i < shown@.len() implies (#[trigger] shown@[i])@ == method_views(
            shown@,
        )[i] by {}
        shown
    }

    /// The lines of a line-number table as the listing shows them.
    fn line_numbers(table: &Vec<LineNumber>) -> (lines: Vec<LineNumberSerde>)
        ensures
            lines@ == shown_lines(table@),
    {
        let mut lines: Vec<LineNumberSerde> = Vec::new();
        let mut i: usize = 0;
        while i < table.len()
            invariant
                i <= table@.len(),
                lines@.len() == i,
                forall|k: int| 0 <= k < i ==> lines@[k] == #[trigger] shown_lines(table@)[k],
            decreases table@.len() - i,
        {
            lines.push(
                LineNumberSerde { start_pc: table[i].start_pc, line_number: table[i].number },
            );
            i += 1;
        }
        assert(lines@ =~= shown_lines(table@));
        lines
    }

    /// Everything that the listing of a class is rendered from: the header,
    /// the source file, the head of the class, its fields and its methods.
    pub fn build_class_info(&self, si: &SysInfo, class: &ClassSummary) -> (info: ClassInfoSerde)
        ensures
            info.enable_sys_info == self.enable_sys_info,
            info.sys_info@ == shown_sys_info(*self, si, class.source_file@),
            info.source_file@ == class.source_file@,
            info.class_head@ == class_head(class),
            field_views(info.fields@) == shown_fields(*self, class.fields@),
            method_views(info.methods@) == shown_methods(
                *self,
                class.is_interface,
                class.methods@,
                class.constant_pool@,
            ),
    {
        ClassInfoSerde {
            enable_sys_info: self.enable_sys_info,
            sys_info: self.build_sys_info(si, &class.source_file),
            source_file: class.source_file.clone(),
            class_head: self.build_class_define(class),
            fields: self.class_fields(&class.fields),
            methods: self.build_methods(class.is_interface, &class.methods, &class.constant_pool),
        }
    }
}

} // verus!
