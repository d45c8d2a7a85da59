//! One declaration-tree node type shared by all languages.
use vstd::prelude::*;

verus! {

/// What every declaration node holds: its name (empty for anonymous
/// constructs), 1-based line, the language's kind code, the nodes it owns,
/// and its modifiers.
#[derive(Debug)]
pub struct ObjectData {
    pub name: String,
    pub line_code: usize,
    pub type_code: String,
    pub children: Vec<DeclarationNode>,
    pub modifiers: Vec<String>,
}

/// A package, namespace or module.
#[derive(Debug)]
pub struct PackageObject {
    pub object_data: ObjectData,
}

/// A class, interface, enum or struct.
#[derive(Debug)]
pub struct ClassObject {
    pub object_data: ObjectData,
}

/// A method, function or constructor, with its parameter names, the text
/// of its return type (empty when none is written) and the scope written
/// before its name (`Owner` in `void Owner::run()`; usually empty).
#[derive(Debug)]
pub struct MethodObject {
    pub object_data: ObjectData,
    pub parameters: Vec<String>,
    pub output_parameter: String,
    pub namespace: String,
}

/// A node of the declaration tree.
#[derive(Debug)]
pub enum DeclarationNode {
    Package(PackageObject),
    Type(ClassObject),
    Method(MethodObject),
}

impl ObjectData {
    pub fn new(name: String, type_code: String) -> (r: ObjectData)
        ensures
            r.name@ == name@,
            r.type_code@ == type_code@,
            r.line_code == 0,
            r.children@.len() == 0,
            r.modifiers@.len() == 0,
    {
        ObjectData { name, line_code: 0, type_code, children: Vec::new(), modifiers: Vec::new() }
    }

    pub fn add_child(&mut self, child: DeclarationNode)
        ensures
            final(self).children@ == old(self).children@.push(child),
            final(self).name == old(self).name,
            final(self).line_code == old(self).line_code,
            final(self).type_code == old(self).type_code,
            final(self).modifiers == old(self).modifiers,
    {
        self.children.push(child);
    }

    pub fn get_name(&self) -> (r: String)
        ensures
            r@ == self.name@,
    {
        self.name.clone()
    }

    pub fn name(&self) -> (r: &String)
        ensures
            r@ == self.name@,
    {
        &self.name
    }

    pub fn set_name(&mut self, name: String)
        ensures
            final(self).name@ == name@,
            final(self).line_code == old(self).line_code,
            final(self).type_code == old(self).type_code,
            final(self).children == old(self).children,
            final(self).modifiers == old(self).modifiers,
    {
        self.name = name;
    }

    pub fn type_code(&self) -> (r: &String)
        ensures
            r@ == self.type_code@,
    {
        &self.type_code
    }

    pub fn set_type_code(&mut self, type_code: String)
        ensures
            final(self).type_code@ == type_code@,
            final(self).name == old(self).name,
            final(self).line_code == old(self).line_code,
            final(self).children == old(self).children,
            final(self).modifiers == old(self).modifiers,
    {
        self.type_code = type_code;
    }

    pub fn get_line_code(&self) -> (r: usize)
        ensures
            r == self.line_code,
    {
        self.line_code
    }

    pub fn set_line_code(&mut self, line_code: usize)
        ensures
            final(self).line_code == line_code,
            final(self).name == old(self).name,
            final(self).type_code == old(self).type_code,
            final(self).children == old(self).children,
            final(self).modifiers == old(self).modifiers,
    {
        self.line_code = line_code;
    }

    pub fn modifiers(&self) -> (r: &Vec<String>)
        ensures
            r@ == self.modifiers@,
    {
        &self.modifiers
    }

    pub fn set_modifiers(&mut self, modifiers: Vec<String>)
        ensures
            final(self).modifiers@ == modifiers@,
            final(self).name == old(self).name,
            final(self).line_code == old(self).line_code,
            final(self).type_code == old(self).type_code,
            final(self).children == old(self).children,
    {
        self.modifiers = modifiers;
    }

    pub fn add_modifier(&mut self, modifier: String)
        ensures
            final(self).modifiers@ == old(self).modifiers@.push(modifier),
            final(self).name == old(self).name,
            final(self).line_code == old(self).line_code,
            final(self).type_code == old(self).type_code,
            final(self).children == old(self).children,
    {
        self.modifiers.push(modifier);
    }

    /// Hands out the parts: name, line, kind code, children, modifiers.
    pub fn take(self) -> (r: (String, usize, String, Vec<DeclarationNode>, Vec<String>))
        ensures
            r == (self.name, self.line_code, self.type_code, self.children, self.modifiers),
    {
        (self.name, self.line_code, self.type_code, self.children, self.modifiers)
    }
}

impl PackageObject {
    pub fn new(package_name: String, type_code: String) -> (r: PackageObject)
        ensures
            r.object_data.name@ == package_name@,
            r.object_data.type_code@ == type_code@,
            r.object_data.line_code == 0,
            r.object_data.children@.len() == 0,
            r.object_data.modifiers@.len() == 0,
    {
        PackageObject { object_data: ObjectData::new(package_name, type_code) }
    }

    /// A package with the given name, declared at `line_code`.
    pub fn new_name(name: String, type_code: String, line_code: usize) -> (r: PackageObject)
        ensures
            r.object_data.name@ == name@,
            r.object_data.type_code@ == type_code@,
            r.object_data.line_code == line_code,
            r.object_data.children@.len() == 0,
            r.object_data.modifiers@.len() == 0,
    {
        let mut object_data = ObjectData::new(name, type_code);
        object_data.set_line_code(line_code);
        PackageObject { object_data }
    }

    pub fn take(self) -> (r: (String, usize, String, Vec<DeclarationNode>, Vec<String>))
        ensures
            r == (self.object_data.name, self.object_data.line_code, self.object_data.type_code,
                self.object_data.children, self.object_data.modifiers),
    {
        self.object_data.take()
    }
}

impl ClassObject {
    pub fn new(name: String, type_code: String) -> (r: ClassObject)
        ensures
            r.object_data.name@ == name@,
            r.object_data.type_code@ == type_code@,
            r.object_data.line_code == 0,
            r.object_data.children@.len() == 0,
            r.object_data.modifiers@.len() == 0,
    {
        ClassObject { object_data: ObjectData::new(name, type_code) }
    }

    /// A type with the given name, declared at `line_code`.
    pub fn new_name(name: String, type_code: String, line_code: usize) -> (r: ClassObject)
        ensures
            r.object_data.name@ == name@,
            r.object_data.type_code@ == type_code@,
            r.object_data.line_code == line_code,
            r.object_data.children@.len() == 0,
            r.object_data.modifiers@.len() == 0,
    {
        let mut object_data = ObjectData::new(name, type_code);
        object_data.set_line_code(line_code);
        ClassObject { object_data }
    }

    pub fn take(self) -> (r: (String, usize, String, Vec<DeclarationNode>, Vec<String>))
        ensures
            r == (self.object_data.name, self.object_data.line_code, self.object_data.type_code,
                self.object_data.children, self.object_data.modifiers),
    {
        self.object_data.take()
    }
}

impl MethodObject {
    pub fn new(name: String, type_code: String) -> (r: MethodObject)
        ensures
            r.object_data.name@ == name@,
            r.object_data.type_code@ == type_code@,
            r.object_data.line_code == 0,
            r.object_data.children@.len() == 0,
            r.object_data.modifiers@.len() == 0,
            r.parameters@.len() == 0,
            r.output_parameter@.len() == 0,
            r.namespace@.len() == 0,
    {
        MethodObject {
            object_data: ObjectData::new(name, type_code),
            parameters: Vec::new(),
            output_parameter: String::new(),
            namespace: String::new(),
        }
    }

    /// A method with the given name and kind code, declared at `line_code`,
    /// with the given parameter names.
    pub fn new_code(name: String, type_code: String, line_code: usize, parameters: Vec<String>) -> (r: MethodObject)
        ensures
            r.object_data.name@ == name@,
            r.object_data.type_code@ == type_code@,
            r.object_data.line_code == line_code,
            r.object_data.children@.len() == 0,
            r.object_data.modifiers@.len() == 0,
            r.parameters@ == parameters@,
            r.output_parameter@.len() == 0,
            r.namespace@.len() == 0,
    {
        let mut object_data = ObjectData::new(name, type_code);
        object_data.set_line_code(line_code);
        MethodObject { object_data, parameters, output_parameter: String::new(), namespace: String::new() }
    }

    pub fn set_parameters(&mut self, params: Vec<String>)
        ensures
            final(self).parameters@ == params@,
            final(self).object_data == old(self).object_data,
            final(self).output_parameter == old(self).output_parameter,
            final(self).namespace == old(self).namespace,
    {
        self.parameters = params;
    }

    pub fn set_output_parameter(&mut self, output_parameters: String)
        ensures
            final(self).output_parameter@ == output_parameters@,
            final(self).object_data == old(self).object_data,
            final(self).parameters == old(self).parameters,
            final(self).namespace == old(self).namespace,
    {
        self.output_parameter = output_parameters;
    }

    /// Hands out the parts: name, line, kind code, children, modifiers,
    /// parameters and return type.
    pub fn take(self) -> (r: (String, usize, String, Vec<DeclarationNode>, Vec<String>, Vec<String>, String))
        ensures
            r == (self.object_data.name, self.object_data.line_code, self.object_data.type_code,
                self.object_data.children, self.object_data.modifiers, self.parameters,
                self.output_parameter),
    {
        let (name, line_code, type_code, children, modifiers) = self.object_data.take();
        (name, line_code, type_code, children, modifiers, self.parameters, self.output_parameter)
    }
}

impl DeclarationNode {
    pub open spec fn data(&self) -> ObjectData {
        match self {
            DeclarationNode::Package(p) => p.object_data,
            DeclarationNode::Type(c) => c.object_data,
            DeclarationNode::Method(m) => m.object_data,
        }
    }

    /// The data of whichever kind of node this is, for changing it in place.
    pub fn data_mut(&mut self) -> (r: &mut ObjectData)
        ensures
            *r == old(self).data(),
            final(self).data() == *final(r),
            *final(self) is Package <==> *old(self) is Package,
            *final(self) is Type <==> *old(self) is Type,
            *final(self) is Method <==> *old(self) is Method,
            *old(self) is Method ==> final(self)->Method_0.parameters == old(self)->Method_0.parameters
                && final(self)->Method_0.output_parameter == old(self)->Method_0.output_parameter
                && final(self)->Method_0.namespace == old(self)->Method_0.namespace,
    {
        match self {
            DeclarationNode::Package(p) => &mut p.object_data,
            DeclarationNode::Type(c) => &mut c.object_data,
            DeclarationNode::Method(m) => &mut m.object_data,
        }
    }

    /// The node's name.
    pub fn get_name(&self) -> (r: String)
        ensures
            r@ == self.data().name@,
    {
        match self {
            DeclarationNode::Package(p) => p.object_data.get_name(),
            DeclarationNode::Type(c) => c.object_data.get_name(),
            DeclarationNode::Method(m) => m.object_data.get_name(),
        }
    }

    pub fn add_child(&mut self, child: DeclarationNode)
        ensures
            final(self).data().children@ == old(self).data().children@.push(child),
            final(self).data().name == old(self).data().name,
            final(self).data().line_code == old(self).data().line_code,
            final(self).data().type_code == old(self).data().type_code,
            final(self).data().modifiers == old(self).data().modifiers,
            *final(self) is Package <==> *old(self) is Package,
            *final(self) is Type <==> *old(self) is Type,
            *final(self) is Method <==> *old(self) is Method,
    {
        match self {
            DeclarationNode::Package(p) => p.object_data.add_child(child),
            DeclarationNode::Type(c) => c.object_data.add_child(child),
            DeclarationNode::Method(m) => m.object_data.add_child(child),
        }
    }
}

} // verus!
