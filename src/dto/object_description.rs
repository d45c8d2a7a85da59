//! Symbol-table entries and navigation links.
use vstd::prelude::*;

verus! {

/// Common access to the location part of a symbol-table entry or a link.
pub trait Description {
    spec fn package_view(&self) -> Seq<char>;

    spec fn class_view(&self) -> Seq<char>;

    spec fn line_view(&self) -> usize;

    spec fn position_view(&self) -> usize;

    fn get_package_name(&self) -> (r: String)
        ensures
            r@ == self.package_view(),
    ;

    fn package_name(&self) -> (r: &String)
        ensures
            r@ == self.package_view(),
    ;

    fn set_package_name(&mut self, package_name: String)
        ensures
            final(self).package_view() == package_name@,
            final(self).class_view() == old(self).class_view(),
            final(self).line_view() == old(self).line_view(),
            final(self).position_view() == old(self).position_view(),
    ;

    fn class_name(&self) -> (r: &String)
        ensures
            r@ == self.class_view(),
    ;

    fn get_class_name(&self) -> (r: String)
        ensures
            r@ == self.class_view(),
    ;

    fn set_class_name(&mut self, class_name: String)
        ensures
            final(self).class_view() == class_name@,
            final(self).package_view() == old(self).package_view(),
            final(self).line_view() == old(self).line_view(),
            final(self).position_view() == old(self).position_view(),
    ;

    fn line(&self) -> (r: usize)
        ensures
            r == self.line_view(),
    ;

    fn set_line(&mut self, line: usize)
        ensures
            final(self).line_view() == line,
            final(self).package_view() == old(self).package_view(),
            final(self).class_view() == old(self).class_view(),
            final(self).position_view() == old(self).position_view(),
    ;

    fn position(&self) -> (r: usize)
        ensures
            r == self.position_view(),
    ;

    fn set_position(&mut self, position: usize)
        ensures
            final(self).position_view() == position,
            final(self).package_view() == old(self).package_view(),
            final(self).class_view() == old(self).class_view(),
            final(self).line_view() == old(self).line_view(),
    ;
}

/// Where something was declared or used: package, type, 1-based line and
/// 0-based column.
#[derive(Debug)]
pub struct DescriptionData {
    pub package_name: String,
    pub class_name: String,
    pub line: usize,
    pub position: usize,
}

impl DescriptionData {
    pub fn new(package_name: String, class_name: String, line: usize, position: usize) -> (r: Self)
        ensures
            r.package_name@ == package_name@,
            r.class_name@ == class_name@,
            r.line == line,
            r.position == position,
    {
        DescriptionData { package_name, class_name, line, position }
    }

    /// An entry with empty names at line 0, column 0.
    pub fn empty() -> (r: Self)
        ensures
            r.package_name@ == Seq::<char>::empty(),
            r.class_name@ == Seq::<char>::empty(),
            r.line == 0,
            r.position == 0,
    {
        DescriptionData { package_name: String::new(), class_name: String::new(), line: 0, position: 0 }
    }

    pub fn package_name(&self) -> (r: &String)
        ensures
            r@ == self.package_name@,
    {
        &self.package_name
    }

    pub fn get_package_name(&self) -> (r: String)
        ensures
            r@ == self.package_name@,
    {
        self.package_name.clone()
    }

    pub fn class_name(&self) -> (r: &String)
        ensures
            r@ == self.class_name@,
    {
        &self.class_name
    }

    pub fn get_class_name(&self) -> (r: String)
        ensures
            r@ == self.class_name@,
    {
        self.class_name.clone()
    }

    pub fn line(&self) -> (r: usize)
        ensures
            r == self.line,
    {
        self.line
    }

    pub fn position(&self) -> (r: usize)
        ensures
            r == self.position,
    {
        self.position
    }

    pub fn set_package_name(&mut self, package_name: String)
        ensures
            final(self).package_name@ == package_name@,
            final(self).class_name == old(self).class_name,
            final(self).line == old(self).line,
            final(self).position == old(self).position,
    {
        self.package_name = package_name;
    }

    pub fn set_class_name(&mut self, class_name: String)
        ensures
            final(self).class_name@ == class_name@,
            final(self).package_name == old(self).package_name,
            final(self).line == old(self).line,
            final(self).position == old(self).position,
    {
        self.class_name = class_name;
    }

    pub fn set_line(&mut self, line: usize)
        ensures
            final(self).line == line,
            final(self).package_name == old(self).package_name,
            final(self).class_name == old(self).class_name,
            final(self).position == old(self).position,
    {
        self.line = line;
    }

    pub fn set_position(&mut self, position: usize)
        ensures
            final(self).position == position,
            final(self).package_name == old(self).package_name,
            final(self).class_name == old(self).class_name,
            final(self).line == old(self).line,
    {
        self.position = position;
    }
}

/// A navigation link: the call site `line`/`position`, the receiver name,
/// the called member and its argument count, and the package and type the
/// call most likely targets.
#[derive(Debug)]
pub struct MethodDescription {
    pub description_data: DescriptionData,
    pub var_name: String,
    pub method_name: String,
    pub count_param_input: usize,
}

impl MethodDescription {
    pub fn new(
        package_name: String,
        class_name: String,
        line: usize,
        position: usize,
        var_name: String,
        method_name: String,
        count_param_input: usize,
    ) -> (r: Self)
        ensures
            r.description_data.package_name@ == package_name@,
            r.description_data.class_name@ == class_name@,
            r.description_data.line == line,
            r.description_data.position == position,
            r.var_name@ == var_name@,
            r.method_name@ == method_name@,
            r.count_param_input == count_param_input,
    {
        Self {
            description_data: DescriptionData::new(package_name, class_name, line, position),
            var_name,
            method_name,
            count_param_input,
        }
    }

    pub fn set_var_name(&mut self, var_name: String)
        ensures
            final(self).var_name@ == var_name@,
            final(self).description_data == old(self).description_data,
            final(self).method_name == old(self).method_name,
            final(self).count_param_input == old(self).count_param_input,
    {
        self.var_name = var_name;
    }

    pub fn set_method_name(&mut self, method_name: String)
        ensures
            final(self).method_name@ == method_name@,
            final(self).description_data == old(self).description_data,
            final(self).var_name == old(self).var_name,
            final(self).count_param_input == old(self).count_param_input,
    {
        self.method_name = method_name;
    }

    pub fn set_count_param_input(&mut self, count_param_input: usize)
        ensures
            final(self).count_param_input == count_param_input,
            final(self).description_data == old(self).description_data,
            final(self).var_name == old(self).var_name,
            final(self).method_name == old(self).method_name,
    {
        self.count_param_input = count_param_input;
    }
}

impl Description for MethodDescription {
    open spec fn package_view(&self) -> Seq<char> {
        self.description_data.package_name@
    }

    open spec fn class_view(&self) -> Seq<char> {
        self.description_data.class_name@
    }

    open spec fn line_view(&self) -> usize {
        self.description_data.line
    }

    open spec fn position_view(&self) -> usize {
        self.description_data.position
    }

    fn get_package_name(&self) -> (r: String) {
        self.description_data.get_package_name()
    }

    fn package_name(&self) -> (r: &String) {
        self.description_data.package_name()
    }

    fn set_package_name(&mut self, package_name: String) {
        self.description_data.set_package_name(package_name);
    }

    fn class_name(&self) -> (r: &String) {
        self.description_data.class_name()
    }

    fn get_class_name(&self) -> (r: String) {
        self.description_data.get_class_name()
    }

    fn set_class_name(&mut self, class_name: String) {
        self.description_data.set_class_name(class_name);
    }

    fn line(&self) -> (r: usize) {
        self.description_data.line()
    }

    fn set_line(&mut self, line: usize) {
        self.description_data.set_line(line);
    }

    fn position(&self) -> (r: usize) {
        self.description_data.position()
    }

    fn set_position(&mut self, position: usize) {
        self.description_data.set_position(position);
    }
}

/// A declared or imported type: where it was declared and the names of its
/// parent types, in the order they were written.
#[derive(Debug)]
pub struct PackageDescription {
    pub description_data: DescriptionData,
    pub parents: Vec<String>,
}

impl PackageDescription {
    pub fn new(
        package_name: String,
        class_name: String,
        line: usize,
        position: usize,
        parents: Vec<String>,
    ) -> (r: Self)
        ensures
            r.description_data.package_name@ == package_name@,
            r.description_data.class_name@ == class_name@,
            r.description_data.line == line,
            r.description_data.position == position,
            r.parents@ == parents@,
    {
        Self { description_data: DescriptionData::new(package_name, class_name, line, position), parents }
    }

    pub fn parents(&self) -> (r: &Vec<String>)
        ensures
            r@ == self.parents@,
    {
        &self.parents
    }

    /// The parents, for changing them in place.
    pub fn mut_parents(&mut self) -> (r: &mut Vec<String>)
        ensures
            *r == old(self).parents,
            final(self).parents == *final(r),
            final(self).description_data == old(self).description_data,
    {
        &mut self.parents
    }

    pub fn add_parent(&mut self, parent: String)
        ensures
            final(self).parents@ == old(self).parents@.push(parent),
            final(self).description_data == old(self).description_data,
    {
        self.parents.push(parent);
    }
}

impl Description for PackageDescription {
    open spec fn package_view(&self) -> Seq<char> {
        self.description_data.package_name@
    }

    open spec fn class_view(&self) -> Seq<char> {
        self.description_data.class_name@
    }

    open spec fn line_view(&self) -> usize {
        self.description_data.line
    }

    open spec fn position_view(&self) -> usize {
        self.description_data.position
    }

    fn get_package_name(&self) -> (r: String) {
        self.description_data.get_package_name()
    }

    fn package_name(&self) -> (r: &String) {
        self.description_data.package_name()
    }

    fn set_package_name(&mut self, package_name: String) {
        self.description_data.set_package_name(package_name);
    }

    fn class_name(&self) -> (r: &String) {
        self.description_data.class_name()
    }

    fn get_class_name(&self) -> (r: String) {
        self.description_data.get_class_name()
    }

    fn set_class_name(&mut self, class_name: String) {
        self.description_data.set_class_name(class_name);
    }

    fn line(&self) -> (r: usize) {
        self.description_data.line()
    }

    fn set_line(&mut self, line: usize) {
        self.description_data.set_line(line);
    }

    fn position(&self) -> (r: usize) {
        self.description_data.position()
    }

    fn set_position(&mut self, position: usize) {
        self.description_data.set_position(position);
    }
}

/// Binds an identifier to the type believed to own it.
#[derive(Debug)]
pub struct VarDescription {
    pub description_data: DescriptionData,
    pub var_name: String,
}

impl VarDescription {
    pub fn new(package_name: String, class_name: String, line: usize, position: usize, var_name: String) -> (r: Self)
        ensures
            r.description_data.package_name@ == package_name@,
            r.description_data.class_name@ == class_name@,
            r.description_data.line == line,
            r.description_data.position == position,
            r.var_name@ == var_name@,
    {
        VarDescription { description_data: DescriptionData::new(package_name, class_name, line, position), var_name }
    }

    pub fn var_name(&self) -> (r: &str)
        ensures
            r@ == self.var_name@,
    {
        self.var_name.as_str()
    }

    pub fn get_var_name(&self) -> (r: String)
        ensures
            r@ == self.var_name@,
    {
        self.var_name.clone()
    }

    pub fn set_var_name(&mut self, var_name: String)
        ensures
            final(self).var_name@ == var_name@,
            final(self).description_data == old(self).description_data,
    {
        self.var_name = var_name;
    }
}

impl Description for VarDescription {
    open spec fn package_view(&self) -> Seq<char> {
        self.description_data.package_name@
    }

    open spec fn class_view(&self) -> Seq<char> {
        self.description_data.class_name@
    }

    open spec fn line_view(&self) -> usize {
        self.description_data.line
    }

    open spec fn position_view(&self) -> usize {
        self.description_data.position
    }

    fn get_package_name(&self) -> (r: String) {
        self.description_data.get_package_name()
    }

    fn package_name(&self) -> (r: &String) {
        self.description_data.package_name()
    }

    fn set_package_name(&mut self, package_name: String) {
        self.description_data.set_package_name(package_name);
    }

    fn class_name(&self) -> (r: &String) {
        self.description_data.class_name()
    }

    fn get_class_name(&self) -> (r: String) {
        self.description_data.get_class_name()
    }

    fn set_class_name(&mut self, class_name: String) {
        self.description_data.set_class_name(class_name);
    }

    fn line(&self) -> (r: usize) {
        self.description_data.line()
    }

    fn set_line(&mut self, line: usize) {
        self.description_data.set_line(line);
    }

    fn position(&self) -> (r: usize) {
        self.description_data.position()
    }

    fn set_position(&mut self, position: usize) {
        self.description_data.set_position(position);
    }
}

} // verus!
