//! The flat declaration record.
use vstd::prelude::*;

verus! {

/// One declared package, type, method or constructor of a file.
#[derive(Debug)]
pub struct RepositoryMethodDto {
    pub repository_id: i32,
    pub path_file: String,
    pub package_name: String,
    pub line_code: usize,
    pub class_name: String,
    pub method_name: String,
    pub blob_data: String,
    pub modifiers: String,
    pub method_type: String,
    pub count_of_parameters: usize,
}

impl RepositoryMethodDto {
    pub fn new(
        repository_id: i32,
        path_file: String,
        package_name: String,
        line_code: usize,
        class_name: String,
        method_name: String,
        blob_data: String,
        modifiers: String,
        method_type: String,
        count_of_parameters: usize,
    ) -> (r: Self)
        ensures
            r.repository_id == repository_id,
            r.path_file@ == path_file@,
            r.package_name@ == package_name@,
            r.line_code == line_code,
            r.class_name@ == class_name@,
            r.method_name@ == method_name@,
            r.blob_data@ == blob_data@,
            r.modifiers@ == modifiers@,
            r.method_type@ == method_type@,
            r.count_of_parameters == count_of_parameters,
    {
        Self {
            repository_id,
            path_file,
            package_name,
            line_code,
            class_name,
            method_name,
            blob_data,
            modifiers,
            method_type,
            count_of_parameters,
        }
    }
}

/// Builds a `RepositoryMethodDto` field by field; unset fields are empty or 0.
pub struct RepositoryMethodDtoBuilder {
    pub repository_id: i32,
    pub path_file: String,
    pub package_name: String,
    pub line_code: usize,
    pub class_name: String,
    pub method_name: String,
    pub blob_data: String,
    pub modifiers: String,
    pub method_type: String,
    pub count_of_parameters: usize,
}

impl RepositoryMethodDtoBuilder {
    pub fn new() -> (r: Self)
        ensures
            r.repository_id == 0,
            r.path_file@.len() == 0,
            r.package_name@.len() == 0,
            r.line_code == 0,
            r.class_name@.len() == 0,
            r.method_name@.len() == 0,
            r.blob_data@.len() == 0,
            r.modifiers@.len() == 0,
            r.method_type@.len() == 0,
            r.count_of_parameters == 0,
    {
        Self {
            repository_id: 0,
            path_file: String::new(),
            package_name: String::new(),
            line_code: 0,
            class_name: String::new(),
            method_name: String::new(),
            blob_data: String::new(),
            modifiers: String::new(),
            method_type: String::new(),
            count_of_parameters: 0,
        }
    }

    pub fn repository_id(self, repository_id: i32) -> (r: RepositoryMethodDtoBuilder)
        ensures
            r == (RepositoryMethodDtoBuilder { repository_id, ..self }),
    {
        RepositoryMethodDtoBuilder { repository_id, ..self }
    }

    pub fn path_file(self, path_file: String) -> (r: RepositoryMethodDtoBuilder)
        ensures
            r == (RepositoryMethodDtoBuilder { path_file, ..self }),
    {
        RepositoryMethodDtoBuilder { path_file, ..self }
    }

    pub fn package_name(self, package_name: String) -> (r: RepositoryMethodDtoBuilder)
        ensures
            r == (RepositoryMethodDtoBuilder { package_name, ..self }),
    {
        RepositoryMethodDtoBuilder { package_name, ..self }
    }

    pub fn line_code(self, line_code: usize) -> (r: RepositoryMethodDtoBuilder)
        ensures
            r == (RepositoryMethodDtoBuilder { line_code, ..self }),
    {
        RepositoryMethodDtoBuilder { line_code, ..self }
    }

    pub fn class_name(self, class_name: String) -> (r: RepositoryMethodDtoBuilder)
        ensures
            r == (RepositoryMethodDtoBuilder { class_name, ..self }),
    {
        RepositoryMethodDtoBuilder { class_name, ..self }
    }

    pub fn method_name(self, method_name: String) -> (r: RepositoryMethodDtoBuilder)
        ensures
            r == (RepositoryMethodDtoBuilder { method_name, ..self }),
    {
        RepositoryMethodDtoBuilder { method_name, ..self }
    }

    pub fn modifiers(self, modifiers: String) -> (r: RepositoryMethodDtoBuilder)
        ensures
            r == (RepositoryMethodDtoBuilder { modifiers, ..self }),
    {
        RepositoryMethodDtoBuilder { modifiers, ..self }
    }

    pub fn method_type(self, method_type: String) -> (r: RepositoryMethodDtoBuilder)
        ensures
            r == (RepositoryMethodDtoBuilder { method_type, ..self }),
    {
        RepositoryMethodDtoBuilder { method_type, ..self }
    }

    pub fn count_of_parameters(self, count_of_parameters: usize) -> (r: RepositoryMethodDtoBuilder)
        ensures
            r == (RepositoryMethodDtoBuilder { count_of_parameters, ..self }),
    {
        RepositoryMethodDtoBuilder { count_of_parameters, ..self }
    }

    pub fn build(self) -> (r: RepositoryMethodDto)
        ensures
            r == (RepositoryMethodDto {
                repository_id: self.repository_id,
                path_file: self.path_file,
                package_name: self.package_name,
                line_code: self.line_code,
                class_name: self.class_name,
                method_name: self.method_name,
                blob_data: self.blob_data,
                modifiers: self.modifiers,
                method_type: self.method_type,
                count_of_parameters: self.count_of_parameters,
            }),
    {
        RepositoryMethodDto {
            repository_id: self.repository_id,
            path_file: self.path_file,
            package_name: self.package_name,
            line_code: self.line_code,
            class_name: self.class_name,
            method_name: self.method_name,
            blob_data: self.blob_data,
            modifiers: self.modifiers,
            method_type: self.method_type,
            count_of_parameters: self.count_of_parameters,
        }
    }
}

} // verus!
