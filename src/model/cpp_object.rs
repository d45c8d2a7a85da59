//! Declaration-kind codes of C++.
use vstd::prelude::*;
use crate::dto::invocation_structure::texts;
use crate::model::declaration::ClassObject;

verus! {

#[allow(non_camel_case_types)]
#[derive(Debug, Clone, Copy, PartialEq, Eq, Structural)]
pub enum CodeType {
    CPP_PACKAGE,
    CPP_CLASS,
    CPP_ENUM,
    CPP_CONSTRUCTOR,
    CPP_METHOD,
}

impl CodeType {
    pub open spec fn spec_code(self) -> Seq<char> {
        match self {
            CodeType::CPP_PACKAGE => "CPP_PACKAGE"@,
            CodeType::CPP_CLASS => "CPP_CLASS"@,
            CodeType::CPP_ENUM => "CPP_ENUM"@,
            CodeType::CPP_METHOD => "CPP_METHOD"@,
            CodeType::CPP_CONSTRUCTOR => "CPP_CONSTRUCTOR"@,
        }
    }

    /// The code's text, as it appears in records.
    pub fn code(&self) -> (r: String)
        ensures
            r@ == self.spec_code(),
    {
        match self {
            CodeType::CPP_PACKAGE => "CPP_PACKAGE".to_owned(),
            CodeType::CPP_CLASS => "CPP_CLASS".to_owned(),
            CodeType::CPP_ENUM => "CPP_ENUM".to_owned(),
            CodeType::CPP_METHOD => "CPP_METHOD".to_owned(),
            CodeType::CPP_CONSTRUCTOR => "CPP_CONSTRUCTOR".to_owned(),
        }
    }

    /// The texts of every code of the language, in a fixed order.
    pub open spec fn type_codes_spec() -> Seq<Seq<char>> {
        seq![
            CodeType::CPP_PACKAGE.spec_code(),
            CodeType::CPP_CLASS.spec_code(),
            CodeType::CPP_ENUM.spec_code(),
            CodeType::CPP_CONSTRUCTOR.spec_code(),
            CodeType::CPP_METHOD.spec_code(),
        ]
    }

    /// Every code of the language, in a fixed order.
    pub fn type_codes() -> (r: Vec<String>)
        ensures
            texts(r@) == Self::type_codes_spec(),
    {
        let mut r = Vec::new();
        r.push(CodeType::CPP_PACKAGE.code());
        r.push(CodeType::CPP_CLASS.code());
        r.push(CodeType::CPP_ENUM.code());
        r.push(CodeType::CPP_CONSTRUCTOR.code());
        r.push(CodeType::CPP_METHOD.code());
        assert(texts(r@) =~= seq![
            CodeType::CPP_PACKAGE.spec_code(),
            CodeType::CPP_CLASS.spec_code(),
            CodeType::CPP_ENUM.spec_code(),
            CodeType::CPP_CONSTRUCTOR.spec_code(),
            CodeType::CPP_METHOD.spec_code(),
        ]);
        r
    }
}

impl ClassObject {
    /// A C++ class declared at `line_number`.
    pub fn new_class(name: String, line_number: usize) -> (r: ClassObject)
        ensures
            r.object_data.name@ == name@,
            r.object_data.type_code@ == CodeType::CPP_CLASS.spec_code(),
            r.object_data.line_code == line_number,
            r.object_data.children@.len() == 0,
            r.object_data.modifiers@.len() == 0,
    {
        ClassObject::new_name(name, CodeType::CPP_CLASS.code(), line_number)
    }

    /// A C++ enum declared at `line_number`.
    pub fn new_enum(name: String, line_number: usize) -> (r: ClassObject)
        ensures
            r.object_data.name@ == name@,
            r.object_data.type_code@ == CodeType::CPP_ENUM.spec_code(),
            r.object_data.line_code == line_number,
            r.object_data.children@.len() == 0,
            r.object_data.modifiers@.len() == 0,
    {
        ClassObject::new_name(name, CodeType::CPP_ENUM.code(), line_number)
    }
}

} // verus!
