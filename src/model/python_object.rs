//! Declaration-kind codes of Python.
use vstd::prelude::*;
use crate::dto::invocation_structure::texts;

verus! {

#[allow(non_camel_case_types)]
#[derive(Debug, Clone, Copy, PartialEq, Eq, Structural)]
pub enum CodeType {
    PYTHON_PACKAGE,
    PYTHON_CLASS,
    PYTHON_ENUM,
    PYTHON_CONSTRUCTOR,
    PYTHON_METHOD,
}

impl CodeType {
    pub open spec fn spec_code(self) -> Seq<char> {
        match self {
            CodeType::PYTHON_PACKAGE => "PYTHON_PACKAGE"@,
            CodeType::PYTHON_CLASS => "PYTHON_CLASS"@,
            CodeType::PYTHON_ENUM => "PYTHON_ENUM"@,
            CodeType::PYTHON_CONSTRUCTOR => "PYTHON_CONSTRUCTOR"@,
            CodeType::PYTHON_METHOD => "PYTHON_METHOD"@,
        }
    }

    /// The code's text, as it appears in records.
    pub fn code(&self) -> (r: String)
        ensures
            r@ == self.spec_code(),
    {
        match self {
            CodeType::PYTHON_PACKAGE => "PYTHON_PACKAGE".to_owned(),
            CodeType::PYTHON_CLASS => "PYTHON_CLASS".to_owned(),
            CodeType::PYTHON_ENUM => "PYTHON_ENUM".to_owned(),
            CodeType::PYTHON_CONSTRUCTOR => "PYTHON_CONSTRUCTOR".to_owned(),
            CodeType::PYTHON_METHOD => "PYTHON_METHOD".to_owned(),
        }
    }

    /// The texts of every code of the language, in a fixed order.
    pub open spec fn type_codes_spec() -> Seq<Seq<char>> {
        seq![
            CodeType::PYTHON_METHOD.spec_code(),
            CodeType::PYTHON_PACKAGE.spec_code(),
            CodeType::PYTHON_CLASS.spec_code(),
            CodeType::PYTHON_ENUM.spec_code(),
            CodeType::PYTHON_CONSTRUCTOR.spec_code(),
        ]
    }

    /// Every code of the language, in a fixed order.
    pub fn type_codes() -> (r: Vec<String>)
        ensures
            texts(r@) == Self::type_codes_spec(),
    {
        let mut r = Vec::new();
        r.push(CodeType::PYTHON_METHOD.code());
        r.push(CodeType::PYTHON_PACKAGE.code());
        r.push(CodeType::PYTHON_CLASS.code());
        r.push(CodeType::PYTHON_ENUM.code());
        r.push(CodeType::PYTHON_CONSTRUCTOR.code());
        assert(texts(r@) =~= seq![
            CodeType::PYTHON_METHOD.spec_code(),
            CodeType::PYTHON_PACKAGE.spec_code(),
            CodeType::PYTHON_CLASS.spec_code(),
            CodeType::PYTHON_ENUM.spec_code(),
            CodeType::PYTHON_CONSTRUCTOR.spec_code(),
        ]);
        r
    }
}

} // verus!
