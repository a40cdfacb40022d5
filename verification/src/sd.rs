//! The data that a listing is rendered from.

use crate::decoder::DecodeError;
use crate::listing::{CodeListing, ShownInstructionView};
use vstd::prelude::*;

verus! {

/// The header of a listing.
#[derive(Clone, Debug, PartialEq, Eq)]
pub struct SysInfoSerde {
    pub class_file: String,
    pub last_modified: String,
    pub size: usize,
    pub checksum: String,
    pub compiled_from: String,
}

/// The value of a [`SysInfoSerde`].
pub struct SysInfoView {
    pub class_file: Seq<char>,
    pub last_modified: Seq<char>,
    pub size: usize,
    pub checksum: Seq<char>,
    pub compiled_from: Seq<char>,
}

impl View for SysInfoSerde {
    type V = SysInfoView;

    open spec fn view(&self) -> SysInfoView {
        SysInfoView {
            class_file: self.class_file@,
            last_modified: self.last_modified@,
            size: self.size,
            checksum: self.checksum@,
            compiled_from: self.compiled_from@,
        }
    }
}

impl SysInfoView {
    /// The header that shows nothing.
    pub open spec fn empty() -> SysInfoView {
        SysInfoView {
            class_file: Seq::empty(),
            last_modified: Seq::empty(),
            size: 0,
            checksum: Seq::empty(),
            compiled_from: Seq::empty(),
        }
    }
}

impl Default for SysInfoSerde {
    fn default() -> (info: SysInfoSerde)
        ensures
            info@ == SysInfoView::empty(),
    {
        SysInfoSerde {
            class_file: String::new(),
            last_modified: String::new(),
            size: 0,
            checksum: String::new(),
            compiled_from: String::new(),
        }
    }
}

/// A field as the listing shows it.
#[derive(Clone, Debug, PartialEq, Eq)]
pub struct FieldInfoSerde {
    pub desc: String,
    pub signature: String,
    pub enable_inner_signature: bool,
}

/// The value of a [`FieldInfoSerde`].
pub struct FieldInfoView {
    pub desc: Seq<char>,
    pub signature: Seq<char>,
    pub enable_inner_signature: bool,
}

impl View for FieldInfoSerde {
    type V = FieldInfoView;

    open spec fn view(&self) -> FieldInfoView {
        FieldInfoView {
            desc: self.desc@,
            signature: self.signature@,
            enable_inner_signature: self.enable_inner_signature,
        }
    }
}

/// One line of a line-number table.
#[derive(Clone, Copy, Debug, PartialEq, Eq, Structural)]
pub struct LineNumberSerde {
    pub start_pc: u16,
    pub line_number: u16,
}

/// The code of a method as the listing shows it: the limits of its frame
/// and its instructions, or the failure that ended their decoding.
#[derive(Clone, Debug, PartialEq, Eq)]
pub struct CodeSerde {
    pub max_stack: u16,
    pub max_locals: u16,
    pub codes: CodeListing,
    pub enable_verbose: bool,
}

/// The value of a [`CodeSerde`].
pub struct CodeView {
    pub max_stack: u16,
    pub max_locals: u16,
    pub codes: Result<Seq<ShownInstructionView>, (int, DecodeError)>,
    pub enable_verbose: bool,
}

impl View for CodeSerde {
    type V = CodeView;

    open spec fn view(&self) -> CodeView {
        CodeView {
            max_stack: self.max_stack,
            max_locals: self.max_locals,
            codes: self.codes@,
            enable_verbose: self.enable_verbose,
        }
    }
}

impl CodeView {
    /// The code that shows nothing.
    pub open spec fn empty() -> CodeView {
        CodeView {
            max_stack: 0,
            max_locals: 0,
            codes: Ok(Seq::empty()),
            enable_verbose: false,
        }
    }
}

impl Default for CodeSerde {
    fn default() -> (code: CodeSerde)
        ensures
            code@ == CodeView::empty(),
    {
        let code = CodeSerde {
            max_stack: 0,
            max_locals: 0,
            codes: CodeListing::Decoded(Vec::new()),
            enable_verbose: false,
        };
        assert(code@.codes->Ok_0 =~= Seq::empty());
        code
    }
}

/// A method as the listing shows it.
#[derive(Clone, Debug, PartialEq, Eq)]
pub struct MethodInfoSerde {
    pub desc: String,
    pub line_number_table: Vec<LineNumberSerde>,
    pub code: CodeSerde,
    pub signature: String,
    pub enable_line_number: bool,
    pub enable_code: bool,
    pub enable_inner_signature: bool,
}

/// The value of a [`MethodInfoSerde`].
pub struct MethodInfoView {
    pub desc: Seq<char>,
    pub line_number_table: Seq<LineNumberSerde>,
    pub code: CodeView,
    pub signature: Seq<char>,
    pub enable_line_number: bool,
    pub enable_code: bool,
    pub enable_inner_signature: bool,
}

impl View for MethodInfoSerde {
    type V = MethodInfoView;

    open spec fn view(&self) -> MethodInfoView {
        MethodInfoView {
            desc: self.desc@,
            line_number_table: self.line_number_table@,
            code: self.code@,
            signature: self.signature@,
            enable_line_number: self.enable_line_number,
            enable_code: self.enable_code,
            enable_inner_signature: self.enable_inner_signature,
        }
    }
}

/// A class as the listing shows it.
#[derive(Clone, Debug, PartialEq, Eq)]
pub struct ClassInfoSerde {
    pub enable_sys_info: bool,
    pub sys_info: SysInfoSerde,
    pub source_file: String,
    pub class_head: String,
    pub fields: Vec<FieldInfoSerde>,
    pub methods: Vec<MethodInfoSerde>,
}

} // verus!
