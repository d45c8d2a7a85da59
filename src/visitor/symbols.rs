//! The symbol table kept while walking a file, and the resolution of call
//! sites into navigation links.
use vstd::prelude::*;
use crate::dto::invocation_structure::RepositoryImportDeclaration;
use crate::dto::object_description::{MethodDescription, PackageDescription, VarDescription};
use crate::syntax::has_char;

verus! {

/// A navigation link as values: target package and type, call-site line
/// and column, receiver name, member name and argument count.
pub struct Link {
    pub package: Seq<char>,
    pub class: Seq<char>,
    pub line: usize,
    pub position: usize,
    pub var: Seq<char>,
    pub method: Seq<char>,
    pub count: usize,
}

pub open spec fn link_of(m: MethodDescription) -> Link {
    Link {
        package: m.description_data.package_name@,
        class: m.description_data.class_name@,
        line: m.description_data.line,
        position: m.description_data.position,
        var: m.var_name@,
        method: m.method_name@,
        count: m.count_param_input,
    }
}

pub open spec fn links_of(s: Seq<MethodDescription>) -> Seq<Link> {
    s.map_values(|m: MethodDescription| link_of(m))
}

/// The index of the most recent binding of identifier `name`.
pub open spec fn last_var(vars: Seq<VarDescription>, name: Seq<char>) -> Option<int>
    decreases vars.len(),
{
    if vars.len() == 0 {
        None
    } else if vars.last().var_name@ == name {
        Some(vars.len() - 1)
    } else {
        last_var(vars.drop_last(), name)
    }
}

/// The index of the first entry for type name `name`.
pub open spec fn first_class(pkgs: Seq<PackageDescription>, name: Seq<char>) -> Option<int>
    decreases pkgs.len(),
{
    if pkgs.len() == 0 {
        None
    } else {
        match first_class(pkgs.drop_last(), name) {
            Some(i) => Some(i),
            None => if pkgs.last().description_data.class_name@ == name {
                Some(pkgs.len() - 1)
            } else {
                None
            },
        }
    }
}

/// The entry for type `name`: the first one named so, else the first
/// anonymous one.
pub open spec fn find_package(pkgs: Seq<PackageDescription>, name: Seq<char>) -> Option<int> {
    match first_class(pkgs, name) {
        Some(i) => Some(i),
        None => first_class(pkgs, Seq::<char>::empty()),
    }
}

/// Whether a receiver reads as an expression fragment rather than a name:
/// it holds the language's scope mark or a parenthesis.
pub open spec fn is_fragment(name: Seq<char>, scope_mark: char) -> bool {
    name.contains(scope_mark) || name.contains('(')
}

/// The links that a call through `this`/`self` yields against the type entry
/// `pd`: one for the type, then one per parent, each with the parent's own
/// package where the parent is known and the type's name.
pub open spec fn fan_out(
    pkgs: Seq<PackageDescription>,
    pd: PackageDescription,
    line: usize,
    position: usize,
    var: Seq<char>,
    method: Seq<char>,
    count: usize,
) -> Seq<Link> {
    seq![Link {
        package: pd.description_data.package_name@,
        class: pd.description_data.class_name@,
        line, position, var, method, count,
    }] + Seq::new(pd.parents@.len(), |k: int| Link {
        package: match find_package(pkgs, pd.parents@[k]@) {
            Some(j) => pkgs[j].description_data.package_name@,
            None => pd.description_data.package_name@,
        },
        class: pd.description_data.class_name@,
        line, position, var, method, count,
    })
}

/// The links for one call site, by the first of three rules that applies:
/// a local binding of the receiver; a call through the self keyword or the
/// enclosing type's name, fanned out over the type's parents; and a
/// best-effort guess.
pub open spec fn resolve(
    vars: Seq<VarDescription>,
    pkgs: Seq<PackageDescription>,
    current: Seq<char>,
    self_word: Seq<char>,
    scope_mark: char,
    var: Seq<char>,
    method: Seq<char>,
    class: Seq<char>,
    count: usize,
    line: usize,
    position: usize,
) -> Seq<Link> {
    if var != self_word && last_var(vars, var) is Some {
        let vd = vars[last_var(vars, var)->0];
        seq![Link {
            package: vd.description_data.package_name@,
            class: vd.description_data.class_name@,
            line, position, var: vd.var_name@, method, count,
        }]
    } else if (var == self_word || var == class) && find_package(pkgs, class) is Some {
        fan_out(pkgs, pkgs[find_package(pkgs, class)->0], line, position, var, method, count)
    } else if find_package(pkgs, var) is Some {
        let pd = pkgs[find_package(pkgs, var)->0];
        seq![Link {
            package: pd.description_data.package_name@,
            class: pd.description_data.class_name@,
            line, position, var, method, count,
        }]
    } else if is_fragment(var, scope_mark) {
        seq![Link {
            package: Seq::empty(), class: Seq::empty(), line, position, var: Seq::empty(), method, count,
        }]
    } else {
        seq![Link { package: current, class: var, line, position, var, method, count }]
    }
}

/// The imports after importing `class` (or every type, for `None`) from
/// `package`: an existing entry for the package takes the new name, once;
/// else a new entry is appended.
pub open spec fn merged_imports(
    imports: Seq<(Seq<char>, Seq<Seq<char>>)>,
    package: Seq<char>,
    class: Option<Seq<char>>,
) -> Seq<(Seq<char>, Seq<Seq<char>>)> {
    let extend = |l: Seq<Seq<char>>| match class {
        Some(c) => if l.contains(c) { l } else { l.push(c) },
        None => l,
    };
    if exists|i: int| 0 <= i < imports.len() && imports[i].0 == package {
        let i = choose|i: int| 0 <= i < imports.len() && imports[i].0 == package
            && forall|j: int| 0 <= j < i ==> imports[j].0 != package;
        imports.update(i, (package, extend(imports[i].1)))
    } else {
        imports.push((package, extend(Seq::empty())))
    }
}

/// The text of an optional string.
pub open spec fn opt_text(o: Option<String>) -> Option<Seq<char>> {
    match o {
        Some(s) => Some(s@),
        None => None,
    }
}

pub open spec fn import_of(d: RepositoryImportDeclaration) -> (Seq<char>, Seq<Seq<char>>) {
    (d.package_name@, d.classes())
}

pub open spec fn imports_of(s: Seq<RepositoryImportDeclaration>) -> Seq<(Seq<char>, Seq<Seq<char>>)> {
    s.map_values(|d: RepositoryImportDeclaration| import_of(d))
}

/// No two import entries name the same package.
pub open spec fn distinct_packages(s: Seq<(Seq<char>, Seq<Seq<char>>)>) -> bool {
    forall|i: int, j: int| 0 <= i < s.len() && 0 <= j < s.len() && i != j ==> s[i].0 != s[j].0
}

/// What the invocation pass has gathered so far in a file.
pub struct SymbolTable {
    pub import_declarations: Vec<RepositoryImportDeclaration>,
    pub package_descriptions: Vec<PackageDescription>,
    pub var_descriptions: Vec<VarDescription>,
    pub links: Vec<MethodDescription>,
    pub current_package: String,
    /// The word by which code refers to its own object (`this`, `self`).
    pub self_word: String,
    /// The character that joins the parts of a qualified name.
    pub scope_mark: char,
}

impl SymbolTable {
    pub open spec fn imports(&self) -> Seq<(Seq<char>, Seq<Seq<char>>)> {
        imports_of(self.import_declarations@)
    }

    pub open spec fn wf(&self) -> bool {
        distinct_packages(self.imports())
    }

    pub fn new(self_word: String, scope_mark: char) -> (r: SymbolTable)
        ensures
            r.wf(),
            r.import_declarations@.len() == 0,
            r.package_descriptions@.len() == 0,
            r.var_descriptions@.len() == 0,
            r.links@.len() == 0,
            r.current_package@.len() == 0,
            r.self_word@ == self_word@,
            r.scope_mark == scope_mark,
    {
        SymbolTable {
            import_declarations: Vec::new(),
            package_descriptions: Vec::new(),
            var_descriptions: Vec::new(),
            links: Vec::new(),
            current_package: String::new(),
            self_word,
            scope_mark,
        }
    }

    pub fn set_current_package(&mut self, current_package: String)
        requires
            old(self).wf(),
        ensures
            keeps(*old(self), *final(self)),
            final(self).current_package@ == current_package@,
            final(self).import_declarations == old(self).import_declarations,
            final(self).package_descriptions == old(self).package_descriptions,
            final(self).var_descriptions == old(self).var_descriptions,
            final(self).links == old(self).links,
            final(self).self_word == old(self).self_word,
            final(self).scope_mark == old(self).scope_mark,
    {
        self.current_package = current_package;
        proof { lemma_keeps_same_links(*old(self), *self); }
    }

    pub fn get_current_package(&self) -> (r: String)
        ensures
            r@ == self.current_package@,
    {
        self.current_package.clone()
    }

    /// The index of the most recent binding of `name`.
    pub fn find_var_desc_by_name(&self, name: &String) -> (r: Option<usize>)
        ensures
            r matches Some(i) ==> last_var(self.var_descriptions@, name@) == Some(i as int)
                && i < self.var_descriptions@.len(),
            r is None ==> last_var(self.var_descriptions@, name@) is None,
    {
        let ghost vars = self.var_descriptions@;
        let mut i: usize = self.var_descriptions.len();
        assert(vars.subrange(0, i as int) =~= vars);
        while i > 0
            invariant
                i <= vars.len(),
                vars == self.var_descriptions@,
                last_var(vars, name@) == last_var(vars.subrange(0, i as int), name@),
            decreases i,
        {
            assert(vars.subrange(0, i as int).drop_last() =~= vars.subrange(0, i - 1));
            if self.var_descriptions[i - 1].var_name == *name {
                return Some(i - 1);
            }
            i = i - 1;
        }
        None
    }

    /// The index of the first entry for type name `name`.
    pub fn first_package_named(&self, name: &String) -> (r: Option<usize>)
        ensures
            r matches Some(i) ==> first_class(self.package_descriptions@, name@) == Some(i as int)
                && i < self.package_descriptions@.len(),
            r is None ==> first_class(self.package_descriptions@, name@) is None,
    {
        let ghost pkgs = self.package_descriptions@;
        let mut i: usize = 0;
        while i < self.package_descriptions.len()
            invariant
                i <= pkgs.len(),
                pkgs == self.package_descriptions@,
                first_class(pkgs.subrange(0, i as int), name@) is None,
            decreases pkgs.len() - i,
        {
            assert(pkgs.subrange(0, i + 1).drop_last() =~= pkgs.subrange(0, i as int));
            if self.package_descriptions[i].description_data.class_name == *name {
                proof { lemma_first_class_extends(pkgs, i as int + 1, name@); }
                return Some(i);
            }
            i = i + 1;
        }
        assert(pkgs.subrange(0, i as int) =~= pkgs);
        None
    }

    /// The entry for type `class_name`, else the first anonymous entry.
    pub fn find_package_by_class_name(&self, class_name: &String) -> (r: Option<usize>)
        ensures
            r matches Some(i) ==> find_package(self.package_descriptions@, class_name@) == Some(i as int)
                && i < self.package_descriptions@.len(),
            r is None ==> find_package(self.package_descriptions@, class_name@) is None,
    {
        match self.first_package_named(class_name) {
            Some(i) => Some(i),
            None => {
                let anonymous = String::new();
                self.first_package_named(&anonymous)
            },
        }
    }

    pub fn add_package_description(&mut self, description: PackageDescription)
        requires
            old(self).wf(),
        ensures
            keeps(*old(self), *final(self)),
            final(self).package_descriptions@ == old(self).package_descriptions@.push(description),
            final(self).import_declarations == old(self).import_declarations,
            final(self).var_descriptions == old(self).var_descriptions,
            final(self).links == old(self).links,
            final(self).current_package == old(self).current_package,
            final(self).self_word == old(self).self_word,
            final(self).scope_mark == old(self).scope_mark,
    {
        self.package_descriptions.push(description);
        proof { lemma_keeps_same_links(*old(self), *self); }
    }

    pub fn add_var_description_entry(&mut self, description: VarDescription)
        requires
            old(self).wf(),
        ensures
            keeps(*old(self), *final(self)),
            final(self).var_descriptions@ == old(self).var_descriptions@.push(description),
            final(self).import_declarations == old(self).import_declarations,
            final(self).package_descriptions == old(self).package_descriptions,
            final(self).links == old(self).links,
            final(self).current_package == old(self).current_package,
            final(self).self_word == old(self).self_word,
            final(self).scope_mark == old(self).scope_mark,
    {
        self.var_descriptions.push(description);
        proof { lemma_keeps_same_links(*old(self), *self); }
    }

    /// Binds `var_name` to type `owner_type`: to the known entry for the
    /// type where there is one, else to the type in the current package.
    pub fn add_var_description(&mut self, owner_type: String, var_name: String, line: usize, position: usize)
        requires
            old(self).wf(),
        ensures
            keeps(*old(self), *final(self)),
            final(self).var_descriptions@.len() == old(self).var_descriptions@.len() + 1,
            final(self).var_descriptions@.drop_last() == old(self).var_descriptions@,
            ({
                let vd = final(self).var_descriptions@.last();
                &&& vd.var_name@ == var_name@
                &&& vd.description_data.line == line
                &&& vd.description_data.position == position
                &&& match find_package(old(self).package_descriptions@, owner_type@) {
                    Some(j) => vd.description_data.package_name@
                        == old(self).package_descriptions@[j].description_data.package_name@
                        && vd.description_data.class_name@
                        == old(self).package_descriptions@[j].description_data.class_name@,
                    None => vd.description_data.package_name@ == old(self).current_package@
                        && vd.description_data.class_name@ == owner_type@,
                }
            }),
            final(self).import_declarations == old(self).import_declarations,
            final(self).package_descriptions == old(self).package_descriptions,
            final(self).links == old(self).links,
            final(self).current_package == old(self).current_package,
            final(self).self_word == old(self).self_word,
            final(self).scope_mark == old(self).scope_mark,
    {
        proof {
            lemma_find_package_bound(self.package_descriptions@, owner_type@);
        }
        let description = match self.find_package_by_class_name(&owner_type) {
            Some(j) => VarDescription::new(
                self.package_descriptions[j].description_data.get_package_name(),
                self.package_descriptions[j].description_data.get_class_name(),
                line,
                position,
                var_name,
            ),
            None => VarDescription::new(self.get_current_package(), owner_type, line, position, var_name),
        };
        self.add_var_description_entry(description);
        assert(self.var_descriptions@.drop_last() =~= old(self).var_descriptions@);
        proof { lemma_keeps_same_links(*old(self), *self); }
    }

    /// Records an import of `class_name` (or of every type, for `None`)
    /// from `package_name`, merged into the package's entry if it has one.
    pub fn add_import(&mut self, package_name: String, class_name: Option<String>)
        requires
            old(self).wf(),
        ensures
            keeps(*old(self), *final(self)),
            final(self).wf(),
            final(self).imports() == merged_imports(
                old(self).imports(),
                package_name@,
                opt_text(class_name),
            ),
            final(self).package_descriptions == old(self).package_descriptions,
            final(self).var_descriptions == old(self).var_descriptions,
            final(self).links == old(self).links,
            final(self).current_package == old(self).current_package,
            final(self).self_word == old(self).self_word,
            final(self).scope_mark == old(self).scope_mark,
    {
        let ghost imports = self.imports();
        let ghost class_view = opt_text(class_name);
        let mut i: usize = 0;
        while i < self.import_declarations.len()
            invariant
                i <= self.import_declarations@.len(),
                self.import_declarations == old(self).import_declarations,
                imports == self.imports(),
                imports == old(self).imports(),
                distinct_packages(imports),
                class_view == opt_text(class_name),
                forall|j: int| 0 <= j < i ==> imports[j].0 != package_name@,
                self.package_descriptions == old(self).package_descriptions,
                self.var_descriptions == old(self).var_descriptions,
                self.links == old(self).links,
                self.current_package == old(self).current_package,
                self.self_word == old(self).self_word,
                self.scope_mark == old(self).scope_mark,
            decreases self.import_declarations@.len() - i,
        {
            if self.import_declarations[i].package_name == package_name {
                let ghost target = (package_name@, match class_view {
                    Some(c) => if imports[i as int].1.contains(c) { imports[i as int].1 } else { imports[i as int].1.push(c) },
                    None => imports[i as int].1,
                });
                let ghost before = self.import_declarations@;
                let mut entry = self.import_declarations.remove(i);
                assert(imports[i as int] == import_of(before[i as int]));
                assert(entry == before[i as int]);
                assert(entry.package_name@ == package_name@);
                match class_name {
                    Some(c) => {
                        assert(class_view == Some(c@));
                        entry.add_class(c);
                    },
                    None => {},
                }
                assert(import_of(entry) == target);
                self.import_declarations.insert(i, entry);
                proof {
                    assert(self.import_declarations@ =~= before.update(i as int, entry));
                    assert(self.imports() =~= imports.update(i as int, target));
                    let k = choose|k: int| 0 <= k < imports.len() && imports[k].0 == package_name@
                        && forall|j: int| 0 <= j < k ==> imports[j].0 != package_name@;
                    assert(k == i);
                    assert forall|j: int| 0 <= j < imports.len() implies #[trigger] self.imports()[j].0 == imports[j].0 by {
                        if j == i as int {
                        } else {
                        }
                    }
                    assert(distinct_packages(self.imports()));
                    assert(self.links@.subrange(0, old(self).links@.len() as int) =~= old(self).links@);
                    assert forall|j: int| 0 <= j < imports.len() implies (#[trigger] self.imports()[j]).0 == imports[j].0 by {
                        if j == i as int {
                        } else {
                        }
                    }
                }
                return;
            }
            i = i + 1;
        }
        let mut entry = RepositoryImportDeclaration::new(package_name);
        match class_name {
            Some(c) => entry.add_class(c),
            None => {},
        }
        self.import_declarations.push(entry);
        assert(self.imports() =~= merged_imports(imports, package_name@, class_view));
        assert(self.links@.subrange(0, old(self).links@.len() as int) =~= old(self).links@);
        assert forall|j: int| 0 <= j < imports.len() implies (#[trigger] self.imports()[j]).0 == imports[j].0 by {
            assert(self.imports()[j] == imports[j]);
        }
    }

    /// Appends the links that `resolve` gives for one call site.
    pub fn add_navigation_link(
        &mut self,
        var_name: &String,
        method_name: &String,
        class_name: &String,
        count: usize,
        line: usize,
        position: usize,
    )
        requires
            old(self).wf(),
        ensures
            keeps(*old(self), *final(self)),
            links_of(final(self).links@) == links_of(old(self).links@) + resolve(
                old(self).var_descriptions@,
                old(self).package_descriptions@,
                old(self).current_package@,
                old(self).self_word@,
                old(self).scope_mark,
                var_name@,
                method_name@,
                class_name@,
                count,
                line,
                position,
            ),
            old(self).links@.len() <= final(self).links@.len(),
            final(self).links@.subrange(0, old(self).links@.len() as int) == old(self).links@,
            final(self).import_declarations == old(self).import_declarations,
            final(self).package_descriptions == old(self).package_descriptions,
            final(self).var_descriptions == old(self).var_descriptions,
            final(self).current_package == old(self).current_package,
            final(self).self_word == old(self).self_word,
            final(self).scope_mark == old(self).scope_mark,
    {
        let ghost old_links = links_of(self.links@);
        if *var_name != self.self_word {
            match self.find_var_desc_by_name(var_name) {
                Some(k) => {
                    let vd = &self.var_descriptions[k];
                    let link = MethodDescription::new(
                        vd.description_data.get_package_name(),
                        vd.description_data.get_class_name(),
                        line,
                        position,
                        vd.get_var_name(),
                        method_name.clone(),
                        count,
                    );
                    self.links.push(link);
                    assert(links_of(self.links@) =~= old_links + seq![link_of(link)]);
                    assert(self.links@.subrange(0, old(self).links@.len() as int) =~= old(self).links@);
                    return;
                },
                None => {},
            }
        }
        if *var_name == self.self_word || *var_name == *class_name {
            match self.find_package_by_class_name(class_name) {
                Some(k) => {
                    self.add_fan_out(k, var_name, method_name, count, line, position);
                    return;
                },
                None => {},
            }
        }
        let link = match self.find_package_by_class_name(var_name) {
            Some(k) => MethodDescription::new(
                self.package_descriptions[k].description_data.get_package_name(),
                self.package_descriptions[k].description_data.get_class_name(),
                line,
                position,
                var_name.clone(),
                method_name.clone(),
                count,
            ),
            None => if has_char(var_name, self.scope_mark) || has_char(var_name, '(') {
                MethodDescription::new(String::new(), String::new(), line, position, String::new(), method_name.clone(), count)
            } else {
                MethodDescription::new(self.get_current_package(), var_name.clone(), line, position, var_name.clone(), method_name.clone(), count)
            },
        };
        self.links.push(link);
        assert(links_of(self.links@) =~= old_links + seq![link_of(link)]);
        assert(self.links@.subrange(0, old(self).links@.len() as int) =~= old(self).links@);
    }

    /// Appends the fan-out links of the type entry at index `k`.
    fn add_fan_out(&mut self, k: usize, var_name: &String, method_name: &String, count: usize, line: usize, position: usize)
        requires
            k < old(self).package_descriptions@.len(),
        ensures
            links_of(final(self).links@) == links_of(old(self).links@) + fan_out(
                old(self).package_descriptions@,
                old(self).package_descriptions@[k as int],
                line,
                position,
                var_name@,
                method_name@,
                count,
            ),
            old(self).links@.len() <= final(self).links@.len(),
            final(self).links@.subrange(0, old(self).links@.len() as int) == old(self).links@,
            final(self).import_declarations == old(self).import_declarations,
            final(self).package_descriptions == old(self).package_descriptions,
            final(self).var_descriptions == old(self).var_descriptions,
            final(self).current_package == old(self).current_package,
            final(self).self_word == old(self).self_word,
            final(self).scope_mark == old(self).scope_mark,
    {
        let ghost pkgs = self.package_descriptions@;
        let ghost old_links = links_of(self.links@);
        let ghost expected = fan_out(pkgs, pkgs[k as int], line, position, var_name@, method_name@, count);
        let package_name = self.package_descriptions[k].description_data.get_package_name();
        let class_name = self.package_descriptions[k].description_data.get_class_name();
        let first = MethodDescription::new(
            package_name.clone(), class_name.clone(), line, position, var_name.clone(), method_name.clone(), count);
        self.links.push(first);
        assert(links_of(self.links@) =~= old_links + expected.subrange(0, 1));
        assert(self.links@.subrange(0, old(self).links@.len() as int) =~= old(self).links@);
        let n = self.package_descriptions[k].parents.len();
        let mut p: usize = 0;
        while p < n
            invariant
                k < pkgs.len(),
                pkgs == self.package_descriptions@,
                n == pkgs[k as int].parents@.len(),
                p <= n,
                package_name@ == pkgs[k as int].description_data.package_name@,
                class_name@ == pkgs[k as int].description_data.class_name@,
                expected == fan_out(pkgs, pkgs[k as int], line, position, var_name@, method_name@, count),
                links_of(self.links@) == old_links + expected.subrange(0, p + 1),
                old(self).links@.len() <= self.links@.len(),
                self.links@.subrange(0, old(self).links@.len() as int) == old(self).links@,
                self.package_descriptions == old(self).package_descriptions,
                self.import_declarations == old(self).import_declarations,
                self.var_descriptions == old(self).var_descriptions,
                self.current_package == old(self).current_package,
                self.self_word == old(self).self_word,
                self.scope_mark == old(self).scope_mark,
            decreases n - p,
        {
            let target = match self.find_package_by_class_name(&self.package_descriptions[k].parents[p]) {
                Some(j) => self.package_descriptions[j].description_data.get_package_name(),
                None => package_name.clone(),
            };
            let link = MethodDescription::new(
                target, class_name.clone(), line, position, var_name.clone(), method_name.clone(), count);
            assert(link_of(link) == expected[p + 1]);
            let ghost prev = self.links@;
            self.links.push(link);
            assert(links_of(self.links@) =~= links_of(prev).push(link_of(link)));
            assert(expected.subrange(0, p + 2) =~= expected.subrange(0, p + 1).push(expected[p + 1]));
            assert(self.links@.subrange(0, old(self).links@.len() as int) =~= prev.subrange(0, old(self).links@.len() as int));
            assert(links_of(self.links@) =~= old_links + expected.subrange(0, p + 2));
            p = p + 1;
        }
        assert(expected.subrange(0, n + 1) =~= expected);
    }

    /// Hands out the imports and the links.
    pub fn take(self) -> (r: (Vec<RepositoryImportDeclaration>, Vec<MethodDescription>))
        ensures
            r.0 == self.import_declarations,
            r.1 == self.links,
    {
        (self.import_declarations, self.links)
    }
}

/// What `first_class` finds is an index of the sequence.
proof fn lemma_first_class_bound(pkgs: Seq<PackageDescription>, name: Seq<char>)
    ensures
        first_class(pkgs, name) matches Some(i) ==> 0 <= i < pkgs.len(),
    decreases pkgs.len(),
{
    if pkgs.len() > 0 {
        lemma_first_class_bound(pkgs.drop_last(), name);
    }
}

/// What `find_package` finds is an index of the sequence.
pub proof fn lemma_find_package_bound(pkgs: Seq<PackageDescription>, name: Seq<char>)
    ensures
        find_package(pkgs, name) matches Some(i) ==> 0 <= i < pkgs.len(),
{
    lemma_first_class_bound(pkgs, name);
    lemma_first_class_bound(pkgs, Seq::empty());
}

/// `new` is `old` later in the same walk: still well formed, with the
/// same self word, with the links `old` had followed by more, with the
/// imported packages `old` had, in the same places, and with every type
/// entry and binding `old` had, in the same places.
pub open spec fn keeps(old: SymbolTable, new: SymbolTable) -> bool {
    &&& new.wf()
    &&& new.self_word == old.self_word
    &&& new.scope_mark == old.scope_mark
    &&& old.links@.len() <= new.links@.len()
    &&& new.links@.subrange(0, old.links@.len() as int) == old.links@
    &&& old.imports().len() <= new.imports().len()
    &&& forall|i: int| 0 <= i < old.imports().len() ==> (#[trigger] new.imports()[i]).0 == old.imports()[i].0
    &&& old.package_descriptions@.len() <= new.package_descriptions@.len()
    &&& forall|i: int| 0 <= i < old.package_descriptions@.len()
        ==> #[trigger] new.package_descriptions@[i] == old.package_descriptions@[i]
    &&& old.var_descriptions@.len() <= new.var_descriptions@.len()
    &&& forall|i: int| 0 <= i < old.var_descriptions@.len()
        ==> #[trigger] new.var_descriptions@[i] == old.var_descriptions@[i]
}

pub proof fn lemma_keeps_refl(t: SymbolTable)
    requires
        t.wf(),
    ensures
        keeps(t, t),
{
    assert(t.links@.subrange(0, t.links@.len() as int) =~= t.links@);
}

pub proof fn lemma_keeps_trans(a: SymbolTable, b: SymbolTable, c: SymbolTable)
    requires
        keeps(a, b),
        keeps(b, c),
    ensures
        keeps(a, c),
{
    assert(c.links@.subrange(0, a.links@.len() as int) =~= b.links@.subrange(0, a.links@.len() as int));
    assert forall|i: int| 0 <= i < a.imports().len() implies (#[trigger] c.imports()[i]).0 == a.imports()[i].0 by {
        assert(b.imports()[i].0 == a.imports()[i].0);
    }
    assert forall|i: int| 0 <= i < a.package_descriptions@.len() implies
        #[trigger] c.package_descriptions@[i] == a.package_descriptions@[i] by {
        assert(b.package_descriptions@[i] == a.package_descriptions@[i]);
    }
    assert forall|i: int| 0 <= i < a.var_descriptions@.len() implies
        #[trigger] c.var_descriptions@[i] == a.var_descriptions@[i] by {
        assert(b.var_descriptions@[i] == a.var_descriptions@[i]);
    }
}

/// A change that leaves the links and the imports alone keeps the table.
pub proof fn lemma_keeps_same_links(a: SymbolTable, b: SymbolTable)
    requires
        a.wf(),
        b.links == a.links,
        b.import_declarations == a.import_declarations,
        b.self_word == a.self_word,
        b.scope_mark == a.scope_mark,
        a.package_descriptions@.len() <= b.package_descriptions@.len(),
        forall|i: int| 0 <= i < a.package_descriptions@.len()
            ==> #[trigger] b.package_descriptions@[i] == a.package_descriptions@[i],
        a.var_descriptions@.len() <= b.var_descriptions@.len(),
        forall|i: int| 0 <= i < a.var_descriptions@.len() ==> #[trigger] b.var_descriptions@[i] == a.var_descriptions@[i],
    ensures
        keeps(a, b),
{
    assert(b.links@.subrange(0, a.links@.len() as int) =~= a.links@);
}

/// `after` is `before` with, for each of `names` in turn, a type entry in
/// `package` and a binding of `super` to that type appended.
pub open spec fn super_entries(before: SymbolTable, after: SymbolTable, package: Seq<char>, names: Seq<Seq<char>>) -> bool {
    &&& after.package_descriptions@.len() == before.package_descriptions@.len() + names.len()
    &&& after.package_descriptions@.subrange(0, before.package_descriptions@.len() as int) == before.package_descriptions@
    &&& forall|i: int| 0 <= i < names.len() ==> {
        let e = #[trigger] after.package_descriptions@[before.package_descriptions@.len() + i];
        e.description_data.class_name@ == names[i] && e.description_data.package_name@ == package
    }
    &&& after.var_descriptions@.len() == before.var_descriptions@.len() + names.len()
    &&& after.var_descriptions@.subrange(0, before.var_descriptions@.len() as int) == before.var_descriptions@
    &&& forall|i: int| 0 <= i < names.len() ==> {
        let v = #[trigger] after.var_descriptions@[before.var_descriptions@.len() + i];
        v.var_name@ == "super"@ && v.description_data.class_name@ == names[i]
            && v.description_data.package_name@ == package
    }
    &&& after.current_package == before.current_package
}

pub proof fn lemma_super_entries_refl(t: SymbolTable, package: Seq<char>)
    ensures
        super_entries(t, t, package, Seq::empty()),
{
    assert(t.package_descriptions@.subrange(0, t.package_descriptions@.len() as int) =~= t.package_descriptions@);
    assert(t.var_descriptions@.subrange(0, t.var_descriptions@.len() as int) =~= t.var_descriptions@);
}

pub proof fn lemma_super_entries_trans(
    a: SymbolTable,
    b: SymbolTable,
    c: SymbolTable,
    package: Seq<char>,
    n1: Seq<Seq<char>>,
    n2: Seq<Seq<char>>,
)
    requires
        super_entries(a, b, package, n1),
        super_entries(b, c, package, n2),
    ensures
        super_entries(a, c, package, n1 + n2),
{
    let pa = a.package_descriptions@.len();
    let va = a.var_descriptions@.len();
    assert(c.package_descriptions@.subrange(0, pa as int) =~= b.package_descriptions@.subrange(0, pa as int));
    assert(c.var_descriptions@.subrange(0, va as int) =~= b.var_descriptions@.subrange(0, va as int));
    assert forall|i: int| 0 <= i < (n1 + n2).len() implies {
        let e = #[trigger] c.package_descriptions@[pa + i];
        e.description_data.class_name@ == (n1 + n2)[i] && e.description_data.package_name@ == package
    } by {
        if i < n1.len() {
            assert(c.package_descriptions@[pa + i] == c.package_descriptions@.subrange(0, b.package_descriptions@.len() as int)[pa + i]);
            assert(b.package_descriptions@[pa + i].description_data.class_name@ == n1[i]);
        } else {
            assert(c.package_descriptions@[pa + i] == c.package_descriptions@[b.package_descriptions@.len() + (i - n1.len())]);
        }
    }
    assert forall|i: int| 0 <= i < (n1 + n2).len() implies {
        let v = #[trigger] c.var_descriptions@[va + i];
        v.var_name@ == "super"@ && v.description_data.class_name@ == (n1 + n2)[i]
            && v.description_data.package_name@ == package
    } by {
        if i < n1.len() {
            assert(c.var_descriptions@[va + i] == c.var_descriptions@.subrange(0, b.var_descriptions@.len() as int)[va + i]);
            assert(b.var_descriptions@[va + i].description_data.class_name@ == n1[i]);
        } else {
            assert(c.var_descriptions@[va + i] == c.var_descriptions@[b.var_descriptions@.len() + (i - n1.len())]);
        }
    }
}

/// Once `first_class` finds a match in a prefix, longer prefixes keep it.
proof fn lemma_first_class_extends(pkgs: Seq<PackageDescription>, n: int, name: Seq<char>)
    requires
        0 < n <= pkgs.len(),
        first_class(pkgs.subrange(0, n - 1), name) is None,
        pkgs[n - 1].description_data.class_name@ == name,
    ensures
        first_class(pkgs, name) == Some(n - 1),
    decreases pkgs.len() - n,
{
    assert(pkgs.subrange(0, n).drop_last() =~= pkgs.subrange(0, n - 1));
    if n < pkgs.len() {
        lemma_first_class_prefix(pkgs, n, name);
    } else {
        assert(pkgs.subrange(0, n) =~= pkgs);
    }
}

/// `first_class` on a sequence agrees with its value on any prefix where it
/// already found something.
proof fn lemma_first_class_prefix(pkgs: Seq<PackageDescription>, n: int, name: Seq<char>)
    requires
        0 <= n <= pkgs.len(),
        first_class(pkgs.subrange(0, n), name) is Some,
    ensures
        first_class(pkgs, name) == first_class(pkgs.subrange(0, n), name),
    decreases pkgs.len() - n,
{
    if n < pkgs.len() {
        assert(pkgs.subrange(0, n + 1).drop_last() =~= pkgs.subrange(0, n));
        lemma_first_class_prefix(pkgs, n + 1, name);
    } else {
        assert(pkgs.subrange(0, n) =~= pkgs);
    }
}

/// `last_var` finds the binding at `j` when no later one has the name.
proof fn lemma_last_var_is(vars: Seq<VarDescription>, name: Seq<char>, j: int)
    requires
        0 <= j < vars.len(),
        vars[j].var_name@ == name,
        forall|k: int| j < k < vars.len() ==> (#[trigger] vars[k]).var_name@ != name,
    ensures
        last_var(vars, name) == Some(j),
    decreases vars.len(),
{
    if j < vars.len() - 1 {
        assert(vars.last() == vars[vars.len() - 1]);
        lemma_last_var_is(vars.drop_last(), name, j);
    }
}

/// Shadowing: when an identifier was bound twice in a scope, at `i` and
/// later at `j`, and not again after, a call through it resolves by the
/// first rule to the type of the later binding alone.
pub proof fn lemma_shadowing(
    vars: Seq<VarDescription>,
    pkgs: Seq<PackageDescription>,
    current: Seq<char>,
    self_word: Seq<char>,
    scope_mark: char,
    var: Seq<char>,
    method: Seq<char>,
    class: Seq<char>,
    count: usize,
    line: usize,
    position: usize,
    i: int,
    j: int,
)
    requires
        0 <= i < j < vars.len(),
        vars[i].var_name@ == var,
        vars[j].var_name@ == var,
        forall|k: int| j < k < vars.len() ==> (#[trigger] vars[k]).var_name@ != var,
        var != self_word,
    ensures
        resolve(vars, pkgs, current, self_word, scope_mark, var, method, class, count, line, position) == seq![Link {
            package: vars[j].description_data.package_name@,
            class: vars[j].description_data.class_name@,
            line,
            position,
            var,
            method,
            count,
        }],
{
    lemma_last_var_is(vars, var, j);
}

/// Inheritance fan-out: a call through the self word inside a type with
/// two parents yields three links at the call site, for the type and then
/// for each parent in order; each names the type and carries the package
/// of the type, then of each parent where that parent is known.
pub proof fn lemma_inheritance_fan_out(
    vars: Seq<VarDescription>,
    pkgs: Seq<PackageDescription>,
    current: Seq<char>,
    self_word: Seq<char>,
    scope_mark: char,
    method: Seq<char>,
    count: usize,
    line: usize,
    position: usize,
    b: int,
)
    requires
        0 <= b < pkgs.len(),
        first_class(pkgs, pkgs[b].description_data.class_name@) == Some(b),
        pkgs[b].parents@.len() == 2,
    ensures
        ({
            let links = resolve(vars, pkgs, current, self_word, scope_mark, self_word, method,
                pkgs[b].description_data.class_name@, count, line, position);
            let package_of = |name: Seq<char>| match find_package(pkgs, name) {
                Some(k) => pkgs[k].description_data.package_name@,
                None => pkgs[b].description_data.package_name@,
            };
            &&& links.len() == 3
            &&& forall|k: int| 0 <= k < 3 ==> (#[trigger] links[k]).class == pkgs[b].description_data.class_name@
                && links[k].line == line && links[k].position == position
                && links[k].method == method && links[k].count == count && links[k].var == self_word
            &&& links[0].package == pkgs[b].description_data.package_name@
            &&& links[1].package == package_of(pkgs[b].parents@[0]@)
            &&& links[2].package == package_of(pkgs[b].parents@[1]@)
        }),
{
    let links = resolve(vars, pkgs, current, self_word, scope_mark, self_word, method,
        pkgs[b].description_data.class_name@, count, line, position);
    assert(find_package(pkgs, pkgs[b].description_data.class_name@) == Some(b));
    assert(links == fan_out(pkgs, pkgs[b], line, position, self_word, method, count));
}

/// Import deduplication: two imports of types from a package not imported
/// before make one entry, appended, whose names are the two in the order
/// seen, the second left out when it repeats the first.
pub proof fn lemma_import_dedup(
    imports: Seq<(Seq<char>, Seq<Seq<char>>)>,
    package: Seq<char>,
    first: Seq<char>,
    second: Seq<char>,
)
    requires
        forall|i: int| 0 <= i < imports.len() ==> (#[trigger] imports[i]).0 != package,
    ensures
        merged_imports(merged_imports(imports, package, Some(first)), package, Some(second))
            == imports.push((package, if first == second { seq![first] } else { seq![first, second] })),
{
    let once = merged_imports(imports, package, Some(first));
    assert(Seq::<Seq<char>>::empty().push(first) =~= seq![first]);
    assert(once == imports.push((package, seq![first])));
    assert(once[imports.len() as int].0 == package);
    let i = choose|i: int| 0 <= i < once.len() && once[i].0 == package
        && forall|j: int| 0 <= j < i ==> once[j].0 != package;
    if i < imports.len() {
        assert(imports[i].0 != package);
    }
    assert(i == imports.len());
    assert(seq![first][0] == first);
    assert(seq![first].contains(first));
    if first != second {
        assert(!seq![first].contains(second)) by {
            if seq![first].contains(second) {
                let k = choose|k: int| 0 <= k < 1 && seq![first][k] == second;
            }
        }
        assert(seq![first].push(second) =~= seq![first, second]);
    }
    assert(merged_imports(once, package, Some(second))
        =~= imports.push((package, if first == second { seq![first] } else { seq![first, second] })));
}

} // verus!
