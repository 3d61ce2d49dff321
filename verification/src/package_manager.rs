//! The type catalogue: a registry of packages with lookup of packages by name
//! and of types by fully qualified `crate::module::…::name` paths. A bare
//! identifier resolves against the reserved built-in package of prelude
//! (scalar) types, each of which offers the constructors `Default` and `Json`.

use vstd::prelude::*;

use crate::package::assoc_get;
use crate::package::find_crate;
use crate::package::find_module;
use crate::package::find_type;
use crate::package::prelude_type_v;
use crate::package::Crate;
use crate::package::ConstructorV;
use crate::package::CrateV;
use crate::package::Module;
use crate::package::ModuleV;
use crate::package::Package;
use crate::package::PackageV;
use crate::package::Type;
use crate::package::TypeV;
use crate::text::split_double_colon;
use crate::text::split_path;
use crate::text::string_eq_str;
use crate::text::views_of;

verus! {

pub open spec fn packages_view(ps: Seq<Package>) -> Seq<PackageV> {
    ps.map_values(|p: Package| p@)
}

/// The first registered package carrying the given name.
pub open spec fn pkgs_get(pkgs: Seq<PackageV>, name: Seq<char>) -> Option<PackageV>
    decreases pkgs.len(),
{
    if pkgs.len() == 0 {
        Option::None
    } else if pkgs[0].name == name {
        Option::Some(pkgs[0])
    } else {
        pkgs_get(pkgs.drop_first(), name)
    }
}

pub open spec fn pkgs_has(pkgs: Seq<PackageV>, name: Seq<char>) -> bool {
    pkgs_get(pkgs, name) is Some
}

/// Descends a module tree along the given segments; the last segment names a
/// type, every segment before it a submodule.
pub open spec fn resolve_in_module(m: ModuleV, segs: Seq<Seq<char>>) -> Option<TypeV>
    decreases segs.len(),
{
    if segs.len() == 0 {
        Option::None
    } else if segs.len() == 1 {
        assoc_get(m.types, segs[0])
    } else {
        match assoc_get(m.modules, segs[0]) {
            Option::Some(sub) => resolve_in_module(sub, segs.drop_first()),
            Option::None => Option::None,
        }
    }
}

/// Resolves a path of at least two segments within one package: the first
/// segment names a crate, the segments between name nested modules, and the
/// last one the type.
pub open spec fn resolve_in_package(p: PackageV, segs: Seq<Seq<char>>) -> Option<TypeV> {
    if segs.len() < 2 {
        Option::None
    } else {
        match assoc_get(p.crates, segs[0]) {
            Option::Some(cr) => if segs.len() == 2 {
                assoc_get(cr.types, segs[1])
            } else {
                match assoc_get(cr.modules, segs[1]) {
                    Option::Some(m) => resolve_in_module(m, segs.skip(2)),
                    Option::None => Option::None,
                }
            },
            Option::None => Option::None,
        }
    }
}

/// The first package that resolves the path wins.
pub open spec fn first_resolving(pkgs: Seq<PackageV>, segs: Seq<Seq<char>>) -> Option<TypeV>
    decreases pkgs.len(),
{
    if pkgs.len() == 0 {
        Option::None
    } else {
        match resolve_in_package(pkgs[0], segs) {
            Option::Some(t) => Option::Some(t),
            Option::None => first_resolving(pkgs.drop_first(), segs),
        }
    }
}

/// What a type lookup by qualified name returns: a bare identifier consults
/// the built-in prelude package, a longer path the registered packages in
/// order.
pub open spec fn get_type_spec(pkgs: Seq<PackageV>, name: Seq<char>) -> Option<TypeV> {
    let segs = split_path(name);
    if segs.len() == 1 {
        match pkgs_get(pkgs, "built-in"@) {
            Option::Some(p) => match assoc_get(p.crates, "primitives"@) {
                Option::Some(cr) => assoc_get(cr.types, segs[0]),
                Option::None => Option::None,
            },
            Option::None => Option::None,
        }
    } else {
        first_resolving(pkgs, segs)
    }
}

/// The names of the prelude (scalar) types.
pub open spec fn prelude_names() -> Seq<Seq<char>> {
    seq![
        "i8"@,
        "i16"@,
        "i32"@,
        "i64"@,
        "i128"@,
        "u8"@,
        "u16"@,
        "u32"@,
        "u64"@,
        "u128"@,
        "isize"@,
        "usize"@,
        "f32"@,
        "f64"@,
        "bool"@,
        "char"@,
    ]
}

/// The reserved pseudo-package holding the prelude types.
pub open spec fn builtin_package_v() -> PackageV {
    PackageV {
        name: "built-in"@,
        version: "1.0.0"@,
        crates: seq![
            (
                "primitives"@,
                CrateV {
                    types: prelude_names().map_values(|n: Seq<char>| (n, prelude_type_v())),
                    modules: Seq::empty(),
                },
            ),
        ],
    }
}

/// What a fresh catalogue holds.
pub open spec fn initial_packages() -> Seq<PackageV> {
    seq![builtin_package_v()]
}

/// A package registered under a fresh name is afterwards found under that
/// name, and stands among the registered packages.
pub proof fn lemma_add_package_registers(pkgs: Seq<PackageV>, p: PackageV)
    requires
        !pkgs_has(pkgs, p.name),
    ensures
        pkgs_get(pkgs.push(p), p.name) == Option::Some(p),
        pkgs.push(p).contains(p),
    decreases pkgs.len(),
{
    if pkgs.len() == 0 {
        assert(pkgs.push(p)[0] == p);
    } else {
        assert(pkgs[0].name != p.name);
        lemma_add_package_registers(pkgs.drop_first(), p);
        assert(pkgs.push(p).drop_first() =~= pkgs.drop_first().push(p));
        assert(pkgs.push(p)[pkgs.len() as int] == p);
    }
}

/// A type declared in a registered package under a path of at least two
/// segments is what a lookup of that path returns, as long as no
/// earlier-registered package declares the same path. (Across packages that
/// declare the same path, the first registered one wins.)
pub proof fn lemma_get_type_finds_declared(
    pkgs: Seq<PackageV>,
    i: int,
    name: Seq<char>,
    t: TypeV,
)
    requires
        0 <= i < pkgs.len(),
        split_path(name).len() >= 2,
        resolve_in_package(pkgs[i], split_path(name)) == Option::Some(t),
        forall|j: int| 0 <= j < i ==> resolve_in_package(pkgs[j], split_path(name)) is None,
    ensures
        get_type_spec(pkgs, name) == Option::Some(t),
    decreases i,
{
    if i == 0 {
    } else {
        assert(forall|j: int|
            0 <= j < i - 1 ==> pkgs.drop_first()[j] == pkgs[j + 1] && resolve_in_package(
                pkgs[j + 1],
                split_path(name),
            ) is None);
        assert(pkgs.drop_first()[i - 1] == pkgs[i]);
        lemma_get_type_finds_declared(pkgs.drop_first(), i - 1, name, t);
    }
}

/// Looking up in a mapping whose values are all the prelude type yields the
/// prelude type for every name the mapping holds.
proof fn lemma_assoc_get_all_prelude(names: Seq<Seq<char>>, key: Seq<char>)
    requires
        names.contains(key),
    ensures
        assoc_get(names.map_values(|n: Seq<char>| (n, prelude_type_v())), key) == Option::Some(
            prelude_type_v(),
        ),
    decreases names.len(),
{
    let mapped = names.map_values(|n: Seq<char>| (n, prelude_type_v()));
    if names[0] == key {
        assert(mapped[0] == (key, prelude_type_v()));
    } else {
        assert(names.drop_first().contains(key)) by {
            let w = choose|w: int| 0 <= w < names.len() && names[w] == key;
            assert(names.drop_first()[w - 1] == key);
        }
        lemma_assoc_get_all_prelude(names.drop_first(), key);
        assert(mapped.drop_first() =~= names.drop_first().map_values(
            |n: Seq<char>| (n, prelude_type_v()),
        ));
    }
}

/// Every prelude (scalar) type of a fresh catalogue offers at least the
/// constructors `Default` and `Json`.
pub proof fn lemma_prelude_constructors(k: int)
    requires
        0 <= k < prelude_names().len(),
    ensures
        ({
            let t = get_type_spec(initial_packages(), prelude_names()[k]);
            &&& t matches Option::Some(ty) && assoc_get(ty.constructors, "Default"@)
                == Option::Some(ConstructorV::FromDefault) && assoc_get(ty.constructors, "Json"@)
                == Option::Some(ConstructorV::FromJson)
        }),
{
    let bare = prelude_names()[k];
    if k == 0 {
        reveal_strlit("i8");
    } else if k == 1 {
        reveal_strlit("i16");
    } else if k == 2 {
        reveal_strlit("i32");
    } else if k == 3 {
        reveal_strlit("i64");
    } else if k == 4 {
        reveal_strlit("i128");
    } else if k == 5 {
        reveal_strlit("u8");
    } else if k == 6 {
        reveal_strlit("u16");
    } else if k == 7 {
        reveal_strlit("u32");
    } else if k == 8 {
        reveal_strlit("u64");
    } else if k == 9 {
        reveal_strlit("u128");
    } else if k == 10 {
        reveal_strlit("isize");
    } else if k == 11 {
        reveal_strlit("usize");
    } else if k == 12 {
        reveal_strlit("f32");
    } else if k == 13 {
        reveal_strlit("f64");
    } else if k == 14 {
        reveal_strlit("bool");
    } else {
        reveal_strlit("char");
    }
    assert(forall|i: int| 0 <= i < bare.len() ==> bare[i] != ':');
    crate::text::lemma_split_no_sep(bare, Seq::empty());
    assert(Seq::<char>::empty() + bare =~= bare);
    assert(split_path(bare) == seq![bare]);
    assert(pkgs_get(initial_packages(), "built-in"@) == Option::Some(builtin_package_v()));
    assert(builtin_package_v().crates[0].0 == "primitives"@);
    lemma_assoc_get_all_prelude(prelude_names(), bare);
    let t = get_type_spec(initial_packages(), bare);
    assert(t == Option::Some(prelude_type_v()));
    assert(prelude_type_v().constructors[0] == ("Default"@, ConstructorV::FromDefault));
    reveal_strlit("Default");
    reveal_strlit("Json");
    assert(prelude_type_v().constructors.drop_first() =~= seq![
        ("Json"@, ConstructorV::FromJson),
    ]);
    assert(prelude_type_v().constructors.len() == 2);
    assert(prelude_type_v().constructors[0].0 == "Default"@);
    assert(assoc_get(prelude_type_v().constructors, "Default"@) == Option::Some(
        ConstructorV::FromDefault,
    ));
    assert("Default"@.len() == 7);
    assert("Json"@.len() == 4);
    assert("Default"@ != "Json"@);
    assert(assoc_get(seq![("Json"@, ConstructorV::FromJson)], "Json"@) == Option::Some(
        ConstructorV::FromJson,
    ));
    assert(assoc_get(prelude_type_v().constructors, "Json"@) == Option::Some(
        ConstructorV::FromJson,
    ));
}

pub struct PackageManager {
    packages: Vec<Package>,
}

impl View for PackageManager {
    type V = Seq<PackageV>;

    closed spec fn view(&self) -> Seq<PackageV> {
        packages_view(self.packages@)
    }
}

impl PackageManager {
    pub fn new() -> (r: Self)
        ensures
            r@ == initial_packages(),
    {
        let mut pm = Self { packages: Vec::new() };
        pm.add_built_in_package();
        proof {
            assert(packages_view(Seq::<Package>::empty()) =~= Seq::<PackageV>::empty());
            assert(pm@ =~= initial_packages());
        }
        pm
    }

    fn add_built_in_package(&mut self)
        ensures
            final(self)@ == (if pkgs_has(old(self)@, "built-in"@) {
                old(self)@
            } else {
                old(self)@.push(builtin_package_v())
            }),
    {
        let mut types: Vec<(String, Type)> = Vec::new();
        types.push(("i8".to_owned(), Type::new_prelude_type()));
        types.push(("i16".to_owned(), Type::new_prelude_type()));
        types.push(("i32".to_owned(), Type::new_prelude_type()));
        types.push(("i64".to_owned(), Type::new_prelude_type()));
        types.push(("i128".to_owned(), Type::new_prelude_type()));
        types.push(("u8".to_owned(), Type::new_prelude_type()));
        types.push(("u16".to_owned(), Type::new_prelude_type()));
        types.push(("u32".to_owned(), Type::new_prelude_type()));
        types.push(("u64".to_owned(), Type::new_prelude_type()));
        types.push(("u128".to_owned(), Type::new_prelude_type()));
        types.push(("isize".to_owned(), Type::new_prelude_type()));
        types.push(("usize".to_owned(), Type::new_prelude_type()));
        types.push(("f32".to_owned(), Type::new_prelude_type()));
        types.push(("f64".to_owned(), Type::new_prelude_type()));
        types.push(("bool".to_owned(), Type::new_prelude_type()));
        types.push(("char".to_owned(), Type::new_prelude_type()));
        let mut crates: Vec<(String, Crate)> = Vec::new();
        crates.push(("primitives".to_owned(), Crate::new_with_types(types)));
        let ghost cv = crates@[0].1@;
        let p = Package {
            name: "built-in".to_owned(),
            version: "1.0.0".to_owned(),
            crates,
        };
        proof {
            assert(cv.types =~= prelude_names().map_values(|n: Seq<char>| (n, prelude_type_v())));
            assert(crate::package::named_crates_view(p.crates@) =~= builtin_package_v().crates);
            assert(p@ == builtin_package_v());
        }
        self.add_package(p);
    }

    /// Adding is idempotent on the package name: the first registration wins.
    pub fn add_package(&mut self, package: Package)
        ensures
            final(self)@ == (if pkgs_has(old(self)@, package@.name) {
                old(self)@
            } else {
                old(self)@.push(package@)
            }),
    {
        let present = self.has_package(&package.name);
        if !present {
            let ghost before = self@;
            self.packages.push(package);
            proof {
                assert(self@ =~= before.push(self.packages@.last()@));
            }
        }
    }

    fn has_package(&self, name: &String) -> (r: bool)
        ensures
            r == pkgs_has(self@, name@),
    {
        let ghost all = self@;
        proof {
            assert(all.skip(0) =~= all);
        }
        let mut i: usize = 0;
        while i < self.packages.len()
            invariant
                i <= self.packages@.len(),
                all == self@,
                all.len() == self.packages@.len(),
                pkgs_get(all, name@) == pkgs_get(all.skip(i as int), name@),
            decreases self.packages@.len() - i,
        {
            proof {
                assert(all.skip(i as int)[0] == all[i as int]);
                assert(all.skip(i as int).drop_first() =~= all.skip(i + 1));
            }
            if string_eq_str(&self.packages[i].name, name.as_str()) {
                return true;
            }
            i = i + 1;
        }
        proof {
            assert(all.skip(self.packages@.len() as int) =~= Seq::<PackageV>::empty());
        }
        false
    }

    /// A copy of every registered package, in registration order.
    pub fn get_all_packages(&self) -> (r: Vec<Package>)
        ensures
            packages_view(r@) == self@,
    {
        let mut r: Vec<Package> = Vec::new();
        let mut i: usize = 0;
        while i < self.packages.len()
            invariant
                i <= self.packages@.len(),
                r@.len() == i,
                forall|j: int| 0 <= j < i ==> r@[j]@ == self.packages@[j]@,
            decreases self.packages@.len() - i,
        {
            r.push(self.packages[i].clone());
            i = i + 1;
        }
        proof {
            assert(packages_view(r@) =~= packages_view(self.packages@));
        }
        r
    }

    pub fn get_package<'a>(&'a self, package_name: &str) -> (r: Option<&'a Package>)
        ensures
            match r {
                Option::Some(p) => pkgs_get(self@, package_name@) == Option::Some(p@),
                Option::None => pkgs_get(self@, package_name@) is None,
            },
    {
        let ghost all = self@;
        proof {
            assert(all.skip(0) =~= all);
        }
        let mut i: usize = 0;
        while i < self.packages.len()
            invariant
                i <= self.packages@.len(),
                all == self@,
                all.len() == self.packages@.len(),
                pkgs_get(all, package_name@) == pkgs_get(all.skip(i as int), package_name@),
            decreases self.packages@.len() - i,
        {
            proof {
                assert(all.skip(i as int)[0] == all[i as int]);
                assert(all.skip(i as int).drop_first() =~= all.skip(i + 1));
            }
            if string_eq_str(&self.packages[i].name, package_name) {
                return Option::Some(&self.packages[i]);
            }
            i = i + 1;
        }
        proof {
            assert(all.skip(self.packages@.len() as int) =~= Seq::<PackageV>::empty());
        }
        Option::None
    }

    /// Looks a type up by its qualified name.
    pub fn get_type<'a>(&'a self, name: &str) -> (r: Option<&'a Type>)
        ensures
            match r {
                Option::Some(t) => get_type_spec(self@, name@) == Option::Some(t@),
                Option::None => get_type_spec(self@, name@) is None,
            },
    {
        let type_ids = split_double_colon(name);
        let ghost segs = split_path(name@);
        proof {
            assert(segs == views_of(type_ids@));
            assert(segs.len() == type_ids@.len());
        }
        if type_ids.len() == 1 {
            let p = match self.get_package("built-in") {
                Option::Some(p) => p,
                Option::None => {
                    return Option::None;
                },
            };
            let cr = match find_crate(&p.crates, "primitives") {
                Option::Some(c) => c,
                Option::None => {
                    return Option::None;
                },
            };
            return find_type(&cr.types, type_ids[0].as_str());
        }
        let ghost all = self@;
        proof {
            assert(all.skip(0) =~= all);
        }
        let mut i: usize = 0;
        while i < self.packages.len()
            invariant
                i <= self.packages@.len(),
                all == self@,
                all.len() == self.packages@.len(),
                segs == views_of(type_ids@),
                segs == split_path(name@),
                segs.len() != 1,
                first_resolving(all, segs) == first_resolving(all.skip(i as int), segs),
            decreases self.packages@.len() - i,
        {
            proof {
                assert(all.skip(i as int)[0] == all[i as int]);
                assert(all.skip(i as int).drop_first() =~= all.skip(i + 1));
            }
            let res = self.get_type_from_package(&type_ids, &self.packages[i]);
            proof {
                assert(all[i as int] == self.packages@[i as int]@);
            }
            match res {
                Option::Some(t) => {
                    proof {
                        assert(first_resolving(all.skip(i as int), segs) == Option::Some(t@));
                    }
                    return Option::Some(t);
                },
                Option::None => {},
            }
            i = i + 1;
        }
        proof {
            assert(all.skip(self.packages@.len() as int) =~= Seq::<PackageV>::empty());
        }
        Option::None
    }

    /// Resolves a split path within one package.
    pub fn get_type_from_package<'a>(&self, type_ids: &Vec<String>, package: &'a Package) -> (r:
        Option<&'a Type>)
        ensures
            match r {
                Option::Some(t) => resolve_in_package(package@, views_of(type_ids@))
                    == Option::Some(t@),
                Option::None => resolve_in_package(package@, views_of(type_ids@)) is None,
            },
    {
        let ghost segs = views_of(type_ids@);
        // At least crate and type name are needed.
        if type_ids.len() < 2 {
            return Option::None;
        }
        let cr = match find_crate(&package.crates, type_ids[0].as_str()) {
            Option::Some(c) => c,
            Option::None => {
                return Option::None;
            },
        };
        if type_ids.len() == 2 {
            return find_type(&cr.types, type_ids[1].as_str());
        }
        let mut module = match find_module(&cr.modules, type_ids[1].as_str()) {
            Option::Some(m) => m,
            Option::None => {
                return Option::None;
            },
        };
        let mut k: usize = 2;
        proof {
            assert(segs.skip(2).skip(0) =~= segs.skip(2));
        }
        while k < type_ids.len() - 1
            invariant
                3 <= type_ids@.len(),
                2 <= k <= type_ids@.len() - 1,
                segs == views_of(type_ids@),
                segs.len() == type_ids@.len(),
                resolve_in_module(module@, segs.skip(k as int)) == resolve_in_package(
                    package@,
                    segs,
                ),
            decreases type_ids@.len() - k,
        {
            proof {
                assert(segs.skip(k as int)[0] == segs[k as int]);
                assert(segs.skip(k as int).drop_first() =~= segs.skip(k + 1));
            }
            module = match find_module(&module.modules, type_ids[k].as_str()) {
                Option::Some(m) => m,
                Option::None => {
                    return Option::None;
                },
            };
            k = k + 1;
        }
        proof {
            assert(segs.skip(k as int)[0] == segs[k as int]);
        }
        find_type(&module.types, type_ids[k].as_str())
    }
}

} // verus!
