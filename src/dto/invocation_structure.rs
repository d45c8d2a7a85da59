//! The per-file result of the invocation pass.
use vstd::prelude::*;
use crate::dto::object_description::MethodDescription;

verus! {

/// The text of each string of a sequence.
pub open spec fn texts(v: Seq<String>) -> Seq<Seq<char>> {
    v.map_values(|s: String| s@)
}

/// An imported package and the type names imported from it, each once, in
/// the order first seen.
#[derive(Debug)]
pub struct RepositoryImportDeclaration {
    pub package_name: String,
    pub class_import_list: Vec<String>,
}

impl RepositoryImportDeclaration {
    pub open spec fn classes(&self) -> Seq<Seq<char>> {
        texts(self.class_import_list@)
    }

    pub fn new(package_name: String) -> (r: Self)
        ensures
            r.package_name@ == package_name@,
            r.classes() == Seq::<Seq<char>>::empty(),
    {
        Self { package_name, class_import_list: Vec::new() }
    }

    /// Adds `class_name` unless it is already listed.
    pub fn add_class(&mut self, class_name: String)
        ensures
            final(self).package_name == old(self).package_name,
            final(self).classes() == (if old(self).classes().contains(class_name@) {
                old(self).classes()
            } else {
                old(self).classes().push(class_name@)
            }),
    {
        if !self.contains_class(&class_name) {
            self.class_import_list.push(class_name);
            proof {
                assert(self.classes() =~= old(self).classes().push(class_name@));
            }
        }
    }

    /// Whether `class_name` is already listed.
    pub fn contains_class(&self, class_name: &String) -> (r: bool)
        ensures
            r == self.classes().contains(class_name@),
    {
        let mut i: usize = 0;
        while i < self.class_import_list.len()
            invariant
                0 <= i <= self.class_import_list@.len(),
                forall|k: int| 0 <= k < i ==> self.classes()[k] != class_name@,
            decreases self.class_import_list@.len() - i,
        {
            if self.class_import_list[i] == *class_name {
                assert(self.classes()[i as int] == class_name@);
                return true;
            }
            i = i + 1;
        }
        false
    }

    pub fn package_name(&self) -> (r: &String)
        ensures
            r@ == self.package_name@,
    {
        &self.package_name
    }

    pub fn class_import_list(&self) -> (r: &Vec<String>)
        ensures
            r@ == self.class_import_list@,
    {
        &self.class_import_list
    }
}

/// Imports, navigation links and the declaration-kind codes of the language.
#[derive(Debug)]
pub struct InvocationStructure {
    pub repository_import_declarations: Vec<RepositoryImportDeclaration>,
    pub method_descriptions: Vec<MethodDescription>,
    pub type_codes: Vec<String>,
}

impl InvocationStructure {
    pub fn new(
        repository_import_declarations: Vec<RepositoryImportDeclaration>,
        method_descriptions: Vec<MethodDescription>,
        type_codes: Vec<String>,
    ) -> (r: Self)
        ensures
            r.repository_import_declarations@ == repository_import_declarations@,
            r.method_descriptions@ == method_descriptions@,
            r.type_codes@ == type_codes@,
    {
        Self { repository_import_declarations, method_descriptions, type_codes }
    }

    /// The result for a file that yields nothing: no imports, no links, no codes.
    pub fn empty() -> (r: Self)
        ensures
            r.repository_import_declarations@.len() == 0,
            r.method_descriptions@.len() == 0,
            r.type_codes@.len() == 0,
    {
        Self { repository_import_declarations: Vec::new(), method_descriptions: Vec::new(), type_codes: Vec::new() }
    }

    pub fn repository_import_declarations(&self) -> (r: &Vec<RepositoryImportDeclaration>)
        ensures
            r@ == self.repository_import_declarations@,
    {
        &self.repository_import_declarations
    }

    pub fn method_descriptions(&self) -> (r: &Vec<MethodDescription>)
        ensures
            r@ == self.method_descriptions@,
    {
        &self.method_descriptions
    }

    pub fn type_codes(&self) -> (r: &Vec<String>)
        ensures
            r@ == self.type_codes@,
    {
        &self.type_codes
    }
}

} // verus!
