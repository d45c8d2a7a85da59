//! Declaration-kind codes of Java.
use vstd::prelude::*;
use crate::dto::invocation_structure::texts;

verus! {

#[allow(non_camel_case_types)]
#[derive(Debug, Clone, Copy, PartialEq, Eq, Structural)]
pub enum CodeType {
    JAVA_PACKAGE,
    JAVA_CLASS,
    JAVA_INTERFACE,
    JAVA_ENUM,
    JAVA_CONSTRUCTOR,
    JAVA_METHOD,
}

impl CodeType {
    pub open spec fn spec_code(self) -> Seq<char> {
        match self {
            CodeType::JAVA_PACKAGE => "JAVA_PACKAGE"@,
            CodeType::JAVA_CLASS => "JAVA_CLASS"@,
            CodeType::JAVA_INTERFACE => "JAVA_INTERFACE"@,
            CodeType::JAVA_ENUM => "JAVA_ENUM"@,
            CodeType::JAVA_CONSTRUCTOR => "JAVA_CONSTRUCTOR"@,
            CodeType::JAVA_METHOD => "JAVA_METHOD"@,
        }
    }

    /// The code's text, as it appears in records.
    pub fn code(&self) -> (r: String)
        ensures
            r@ == self.spec_code(),
    {
        match self {
            CodeType::JAVA_PACKAGE => "JAVA_PACKAGE".to_owned(),
            CodeType::JAVA_CLASS => "JAVA_CLASS".to_owned(),
            CodeType::JAVA_INTERFACE => "JAVA_INTERFACE".to_owned(),
            CodeType::JAVA_ENUM => "JAVA_ENUM".to_owned(),
            CodeType::JAVA_CONSTRUCTOR => "JAVA_CONSTRUCTOR".to_owned(),
            CodeType::JAVA_METHOD => "JAVA_METHOD".to_owned(),
        }
    }

    /// The texts of every code of the language, in a fixed order.
    pub open spec fn type_codes_spec() -> Seq<Seq<char>> {
        seq![
            CodeType::JAVA_PACKAGE.spec_code(),
            CodeType::JAVA_CLASS.spec_code(),
            CodeType::JAVA_INTERFACE.spec_code(),
            CodeType::JAVA_ENUM.spec_code(),
            CodeType::JAVA_CONSTRUCTOR.spec_code(),
            CodeType::JAVA_METHOD.spec_code(),
        ]
    }

    /// Every code of the language, in a fixed order.
    pub fn type_codes() -> (r: Vec<String>)
        ensures
            texts(r@) == Self::type_codes_spec(),
    {
        let mut r = Vec::new();
        r.push(CodeType::JAVA_PACKAGE.code());
        r.push(CodeType::JAVA_CLASS.code());
        r.push(CodeType::JAVA_INTERFACE.code());
        r.push(CodeType::JAVA_ENUM.code());
        r.push(CodeType::JAVA_CONSTRUCTOR.code());
        r.push(CodeType::JAVA_METHOD.code());
        assert(texts(r@) =~= seq![
            CodeType::JAVA_PACKAGE.spec_code(),
            CodeType::JAVA_CLASS.spec_code(),
            CodeType::JAVA_INTERFACE.spec_code(),
            CodeType::JAVA_ENUM.spec_code(),
            CodeType::JAVA_CONSTRUCTOR.spec_code(),
            CodeType::JAVA_METHOD.spec_code(),
        ]);
        r
    }
}

} // verus!
