//! Declaration-kind codes of JavaScript and TypeScript.
use vstd::prelude::*;
use crate::dto::invocation_structure::texts;

verus! {

#[allow(non_camel_case_types)]
#[derive(Debug, Clone, Copy, PartialEq, Eq, Structural)]
pub enum CodeType {
    JS_PACKAGE,
    JS_CLASS,
    JS_METHOD,
    JS_CONSTRUCTOR,
}

impl CodeType {
    pub open spec fn spec_code(self) -> Seq<char> {
        match self {
            CodeType::JS_PACKAGE => "JS_PACKAGE"@,
            CodeType::JS_CLASS => "JS_CLASS"@,
            CodeType::JS_METHOD => "JS_METHOD"@,
            CodeType::JS_CONSTRUCTOR => "JS_CONSTRUCTOR"@,
        }
    }

    /// The code's text, as it appears in records.
    pub fn code(&self) -> (r: String)
        ensures
            r@ == self.spec_code(),
    {
        match self {
            CodeType::JS_PACKAGE => "JS_PACKAGE".to_owned(),
            CodeType::JS_CLASS => "JS_CLASS".to_owned(),
            CodeType::JS_METHOD => "JS_METHOD".to_owned(),
            CodeType::JS_CONSTRUCTOR => "JS_CONSTRUCTOR".to_owned(),
        }
    }

    /// The texts of every code of the language, in a fixed order.
    pub open spec fn type_codes_spec() -> Seq<Seq<char>> {
        seq![
            CodeType::JS_PACKAGE.spec_code(),
            CodeType::JS_CLASS.spec_code(),
            CodeType::JS_METHOD.spec_code(),
            CodeType::JS_CONSTRUCTOR.spec_code(),
        ]
    }

    /// Every code of the language, in a fixed order.
    pub fn type_codes() -> (r: Vec<String>)
        ensures
            texts(r@) == Self::type_codes_spec(),
    {
        let mut r = Vec::new();
        r.push(CodeType::JS_PACKAGE.code());
        r.push(CodeType::JS_CLASS.code());
        r.push(CodeType::JS_METHOD.code());
        r.push(CodeType::JS_CONSTRUCTOR.code());
        assert(texts(r@) =~= seq![
            CodeType::JS_PACKAGE.spec_code(),
            CodeType::JS_CLASS.spec_code(),
            CodeType::JS_METHOD.spec_code(),
            CodeType::JS_CONSTRUCTOR.spec_code(),
        ]);
        r
    }
}

} // verus!
