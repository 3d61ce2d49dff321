//! The catalogue's data model: packages, crates, modules, types and their
//! constructors, together with the recursive constructor-emission logic that
//! turns a constructor recipe into source text.
//!
//! Name-to-value mappings are association lists of `(String, V)` pairs; a
//! lookup returns the first entry with the wanted name. Each data type has a
//! ghost view (`@`) over sequences of characters, and every emission function
//! states its output text against spec functions over those views.

use vstd::prelude::*;

use crate::package_manager::PackageManager;
use crate::text::join_with;
use crate::text::views_of;

verus! {

// ---------------------------------------------------------------------------
// Ghost views of the data model.
// ---------------------------------------------------------------------------
pub ghost struct PackageV {
    pub name: Seq<char>,
    pub version: Seq<char>,
    pub crates: Seq<(Seq<char>, CrateV)>,
}

pub ghost struct CrateV {
    pub types: Seq<(Seq<char>, TypeV)>,
    pub modules: Seq<(Seq<char>, ModuleV)>,
}

pub ghost struct ModuleV {
    pub types: Seq<(Seq<char>, TypeV)>,
    pub modules: Seq<(Seq<char>, ModuleV)>,
}

pub ghost struct TypeV {
    pub inputs: Option<Seq<(Seq<char>, TypeDescriptionV)>>,
    pub outputs: Option<Seq<(Seq<char>, TypeDescriptionV)>>,
    pub type_parameters: Option<Seq<Seq<char>>>,
    pub constructors: Seq<(Seq<char>, ConstructorV)>,
}

pub ghost enum TypeDescriptionV {
    Type { name: Seq<char>, type_parameters: Option<Seq<TypeDescriptionV>> },
    Generic { name: Seq<char>, type_parameters: Option<Seq<TypeDescriptionV>> },
}

pub ghost enum ArgumentConstructionV {
    Constructor(Seq<char>),
    ExistingObject,
}

pub ghost struct ArgumentV {
    pub arg_type: TypeDescriptionV,
    pub name: Seq<char>,
    pub passing: ArgumentPassing,
    pub construction: ArgumentConstructionV,
}

pub ghost enum ConstructorV {
    New { function_name: Option<Seq<char>> },
    NewWithObserver { function_name: Option<Seq<char>> },
    NewWithObserverAndContext { function_name: Option<Seq<char>> },
    NewWithArbitraryArgs { function_name: Option<Seq<char>>, arguments: Seq<ArgumentV> },
    FromJson,
    FromDefault,
    FromCode { code_template: Seq<char> },
}

pub ghost struct ObjectDescriptionV {
    pub type_path: Seq<char>,
    pub type_parameter_part: Seq<char>,
    pub name: Seq<char>,
    pub is_mutable: bool,
}

// ---------------------------------------------------------------------------
// The data model itself.
// ---------------------------------------------------------------------------
#[derive(Debug, PartialEq)]
pub struct Package {
    pub name: String,
    pub version: String,
    pub crates: Vec<(String, Crate)>,
}

#[derive(Debug, PartialEq)]
pub struct Crate {
    pub types: Vec<(String, Type)>,
    pub modules: Vec<(String, Module)>,
    // Crates do not nest: only fully qualified type names matter, and a
    // parent crate is never part of such a name.
}

#[derive(Debug, PartialEq)]
pub struct Module {
    pub types: Vec<(String, Type)>,
    pub modules: Vec<(String, Module)>,
}

#[derive(Debug, PartialEq)]
pub struct Input {
    pub input_type: TypeDescription,
}

#[derive(Debug, PartialEq)]
pub struct Output {
    pub output_type: TypeDescription,
}

#[derive(Debug, PartialEq)]
pub struct Type {
    pub inputs: Option<Vec<(String, Input)>>,
    pub outputs: Option<Vec<(String, Output)>>,
    pub type_parameters: Option<Vec<String>>,
    pub constructors: Vec<(String, Constructor)>,
}

#[derive(Debug, PartialEq)]
pub enum TypeDescription {
    Type { name: String, type_parameters: Option<Vec<TypeDescription>> },
    Generic { name: String, type_parameters: Option<Vec<TypeDescription>> },
}

#[derive(Debug, PartialEq, Clone, Copy)]
pub enum ArgumentPassing {
    Reference,
    MutableReference,
    Move,
    Clone,
}

#[derive(Debug, PartialEq, Clone, Copy)]
pub struct Modifier {
    pub is_mutable: bool,
    pub is_reference: bool,
}

impl Modifier {
    pub fn nothing() -> (r: Self)
        ensures
            !r.is_mutable,
            !r.is_reference,
    {
        Self { is_mutable: false, is_reference: false }
    }
}

#[derive(Debug, PartialEq)]
pub enum ArgumentConstruction {
    Constructor(String),
    ExistingObject,
}

#[derive(Debug, PartialEq)]
pub struct Argument {
    pub arg_type: TypeDescription,
    pub name: String,
    pub passing: ArgumentPassing,
    pub construction: ArgumentConstruction,
}

#[derive(Debug, PartialEq)]
pub enum Constructor {
    New { function_name: Option<String> },
    NewWithObserver { function_name: Option<String> },
    NewWithObserverAndContext { function_name: Option<String> },
    NewWithArbitraryArgs { function_name: Option<String>, arguments: Vec<Argument> },
    FromJson,
    FromDefault,
    FromCode { code_template: String },
}

#[derive(Debug, PartialEq)]
pub struct ObjectDescription {
    pub type_path: String,
    pub type_parameter_part: String,
    pub name: String,
    pub is_mutable: bool,
}

// ---------------------------------------------------------------------------
// Views.
// ---------------------------------------------------------------------------
pub open spec fn option_string_view(o: Option<String>) -> Option<Seq<char>> {
    match o {
        Option::Some(s) => Option::Some(s@),
        Option::None => Option::None,
    }
}

pub open spec fn type_descs_view(ds: Seq<TypeDescription>) -> Seq<TypeDescriptionV>
    decreases ds,
{
    if ds.len() == 0 {
        Seq::empty()
    } else {
        type_descs_view(ds.drop_last()).push(ds.last()@)
    }
}

impl View for TypeDescription {
    type V = TypeDescriptionV;

    open spec fn view(&self) -> TypeDescriptionV
        decreases self,
    {
        match self {
            TypeDescription::Type { name, type_parameters } => TypeDescriptionV::Type {
                name: name@,
                type_parameters: match type_parameters {
                    Option::Some(ps) => Option::Some(type_descs_view(ps@)),
                    Option::None => Option::None,
                },
            },
            TypeDescription::Generic { name, type_parameters } => TypeDescriptionV::Generic {
                name: name@,
                type_parameters: match type_parameters {
                    Option::Some(ps) => Option::Some(type_descs_view(ps@)),
                    Option::None => Option::None,
                },
            },
        }
    }
}

impl View for ArgumentConstruction {
    type V = ArgumentConstructionV;

    open spec fn view(&self) -> ArgumentConstructionV {
        match self {
            ArgumentConstruction::Constructor(name) => ArgumentConstructionV::Constructor(name@),
            ArgumentConstruction::ExistingObject => ArgumentConstructionV::ExistingObject,
        }
    }
}

impl View for Argument {
    type V = ArgumentV;

    open spec fn view(&self) -> ArgumentV {
        ArgumentV {
            arg_type: self.arg_type@,
            name: self.name@,
            passing: self.passing,
            construction: self.construction@,
        }
    }
}

pub open spec fn arguments_view(args: Seq<Argument>) -> Seq<ArgumentV> {
    args.map_values(|a: Argument| a@)
}

impl View for Constructor {
    type V = ConstructorV;

    open spec fn view(&self) -> ConstructorV {
        match self {
            Constructor::New { function_name } => ConstructorV::New {
                function_name: option_string_view(*function_name),
            },
            Constructor::NewWithObserver { function_name } => ConstructorV::NewWithObserver {
                function_name: option_string_view(*function_name),
            },
            Constructor::NewWithObserverAndContext {
                function_name,
            } => ConstructorV::NewWithObserverAndContext {
                function_name: option_string_view(*function_name),
            },
            Constructor::NewWithArbitraryArgs {
                function_name,
                arguments,
            } => ConstructorV::NewWithArbitraryArgs {
                function_name: option_string_view(*function_name),
                arguments: arguments_view(arguments@),
            },
            Constructor::FromJson => ConstructorV::FromJson,
            Constructor::FromDefault => ConstructorV::FromDefault,
            Constructor::FromCode { code_template } => ConstructorV::FromCode {
                code_template: code_template@,
            },
        }
    }
}

impl View for Input {
    type V = TypeDescriptionV;

    open spec fn view(&self) -> TypeDescriptionV {
        self.input_type@
    }
}

impl View for Output {
    type V = TypeDescriptionV;

    open spec fn view(&self) -> TypeDescriptionV {
        self.output_type@
    }
}

pub open spec fn named_inputs_view(xs: Seq<(String, Input)>) -> Seq<(Seq<char>, TypeDescriptionV)> {
    xs.map_values(|p: (String, Input)| (p.0@, p.1@))
}

pub open spec fn named_outputs_view(xs: Seq<(String, Output)>) -> Seq<
    (Seq<char>, TypeDescriptionV),
> {
    xs.map_values(|p: (String, Output)| (p.0@, p.1@))
}

pub open spec fn named_constructors_view(xs: Seq<(String, Constructor)>) -> Seq<
    (Seq<char>, ConstructorV),
> {
    xs.map_values(|p: (String, Constructor)| (p.0@, p.1@))
}

impl View for Type {
    type V = TypeV;

    open spec fn view(&self) -> TypeV {
        TypeV {
            inputs: match self.inputs {
                Option::Some(xs) => Option::Some(named_inputs_view(xs@)),
                Option::None => Option::None,
            },
            outputs: match self.outputs {
                Option::Some(xs) => Option::Some(named_outputs_view(xs@)),
                Option::None => Option::None,
            },
            type_parameters: match self.type_parameters {
                Option::Some(ps) => Option::Some(views_of(ps@)),
                Option::None => Option::None,
            },
            constructors: named_constructors_view(self.constructors@),
        }
    }
}

pub open spec fn named_types_view(xs: Seq<(String, Type)>) -> Seq<(Seq<char>, TypeV)> {
    xs.map_values(|p: (String, Type)| (p.0@, p.1@))
}

pub open spec fn named_modules_view(xs: Seq<(String, Module)>) -> Seq<(Seq<char>, ModuleV)>
    decreases xs,
{
    if xs.len() == 0 {
        Seq::empty()
    } else {
        named_modules_view(xs.drop_last()).push((xs.last().0@, xs.last().1@))
    }
}

impl View for Module {
    type V = ModuleV;

    open spec fn view(&self) -> ModuleV
        decreases self,
    {
        ModuleV {
            types: named_types_view(self.types@),
            modules: named_modules_view(self.modules@),
        }
    }
}

impl View for Crate {
    type V = CrateV;

    open spec fn view(&self) -> CrateV {
        CrateV { types: named_types_view(self.types@), modules: named_modules_view(self.modules@) }
    }
}

pub open spec fn named_crates_view(xs: Seq<(String, Crate)>) -> Seq<(Seq<char>, CrateV)> {
    xs.map_values(|p: (String, Crate)| (p.0@, p.1@))
}

impl View for Package {
    type V = PackageV;

    open spec fn view(&self) -> PackageV {
        PackageV {
            name: self.name@,
            version: self.version@,
            crates: named_crates_view(self.crates@),
        }
    }
}

impl View for ObjectDescription {
    type V = ObjectDescriptionV;

    open spec fn view(&self) -> ObjectDescriptionV {
        ObjectDescriptionV {
            type_path: self.type_path@,
            type_parameter_part: self.type_parameter_part@,
            name: self.name@,
            is_mutable: self.is_mutable,
        }
    }
}

// ---------------------------------------------------------------------------
// Lookup in a name-to-value association list: the first entry wins.
// ---------------------------------------------------------------------------
pub open spec fn assoc_get<V>(entries: Seq<(Seq<char>, V)>, key: Seq<char>) -> Option<V>
    decreases entries.len(),
{
    if entries.len() == 0 {
        Option::None
    } else if entries[0].0 == key {
        Option::Some(entries[0].1)
    } else {
        assoc_get(entries.drop_first(), key)
    }
}

pub open spec fn assoc_has<V>(entries: Seq<(Seq<char>, V)>, key: Seq<char>) -> bool {
    assoc_get(entries, key) is Some
}

// ---------------------------------------------------------------------------
// Exec lookups over the association lists, each against `assoc_get`.
// ---------------------------------------------------------------------------
pub fn find_crate<'a>(entries: &'a Vec<(String, Crate)>, key: &str) -> (r: Option<&'a Crate>)
    ensures
        match r {
            Option::Some(c) => assoc_get(named_crates_view(entries@), key@) == Option::Some(c@),
            Option::None => assoc_get(named_crates_view(entries@), key@) is None,
        },
{
    let ghost all = named_crates_view(entries@);
    let mut i: usize = 0;
    proof {
        assert(all.skip(0) =~= all);
    }
    while i < entries.len()
        invariant
            i <= entries@.len(),
            all == named_crates_view(entries@),
            assoc_get(all, key@) == assoc_get(all.skip(i as int), key@),
        decreases entries@.len() - i,
    {
        proof {
            assert(all.skip(i as int)[0] == all[i as int]);
            assert(all.skip(i as int).drop_first() =~= all.skip(i + 1));
        }
        if crate::text::string_eq_str(&entries[i].0, key) {
            return Option::Some(&entries[i].1);
        }
        i = i + 1;
    }
    proof {
        assert(all.skip(entries@.len() as int) =~= Seq::<(Seq<char>, CrateV)>::empty());
    }
    Option::None
}

pub fn find_module<'a>(entries: &'a Vec<(String, Module)>, key: &str) -> (r: Option<&'a Module>)
    ensures
        match r {
            Option::Some(m) => assoc_get(named_modules_view(entries@), key@) == Option::Some(m@),
            Option::None => assoc_get(named_modules_view(entries@), key@) is None,
        },
{
    let ghost all = named_modules_view(entries@);
    proof {
        lemma_named_modules_view_index(entries@);
    }
    let mut i: usize = 0;
    proof {
        assert(all.skip(0) =~= all);
    }
    while i < entries.len()
        invariant
            i <= entries@.len(),
            all == named_modules_view(entries@),
            all.len() == entries@.len(),
            forall|j: int|
                0 <= j < entries@.len() ==> all[j] == (entries@[j].0@, entries@[j].1@),
            assoc_get(all, key@) == assoc_get(all.skip(i as int), key@),
        decreases entries@.len() - i,
    {
        proof {
            assert(all.skip(i as int)[0] == all[i as int]);
            assert(all.skip(i as int).drop_first() =~= all.skip(i + 1));
        }
        if crate::text::string_eq_str(&entries[i].0, key) {
            return Option::Some(&entries[i].1);
        }
        i = i + 1;
    }
    proof {
        assert(all.skip(entries@.len() as int) =~= Seq::<(Seq<char>, ModuleV)>::empty());
    }
    Option::None
}

/// The recursive module view indexes like the element-wise views.
pub proof fn lemma_named_modules_view_index(xs: Seq<(String, Module)>)
    ensures
        named_modules_view(xs).len() == xs.len(),
        forall|j: int| 0 <= j < xs.len() ==> named_modules_view(xs)[j] == (xs[j].0@, xs[j].1@),
    decreases xs.len(),
{
    if xs.len() > 0 {
        lemma_named_modules_view_index(xs.drop_last());
        assert(named_modules_view(xs) == named_modules_view(xs.drop_last()).push(
            (xs.last().0@, xs.last().1@),
        ));
        assert forall|j: int| 0 <= j < xs.len() implies named_modules_view(xs)[j] == (
        xs[j].0@,
        xs[j].1@,
        ) by {
            if j < xs.len() - 1 {
                assert(xs.drop_last()[j] == xs[j]);
            }
        }
    }
}

pub fn find_type<'a>(entries: &'a Vec<(String, Type)>, key: &str) -> (r: Option<&'a Type>)
    ensures
        match r {
            Option::Some(t) => assoc_get(named_types_view(entries@), key@) == Option::Some(t@),
            Option::None => assoc_get(named_types_view(entries@), key@) is None,
        },
{
    let ghost all = named_types_view(entries@);
    let mut i: usize = 0;
    proof {
        assert(all.skip(0) =~= all);
    }
    while i < entries.len()
        invariant
            i <= entries@.len(),
            all == named_types_view(entries@),
            assoc_get(all, key@) == assoc_get(all.skip(i as int), key@),
        decreases entries@.len() - i,
    {
        proof {
            assert(all.skip(i as int)[0] == all[i as int]);
            assert(all.skip(i as int).drop_first() =~= all.skip(i + 1));
        }
        if crate::text::string_eq_str(&entries[i].0, key) {
            return Option::Some(&entries[i].1);
        }
        i = i + 1;
    }
    proof {
        assert(all.skip(entries@.len() as int) =~= Seq::<(Seq<char>, TypeV)>::empty());
    }
    Option::None
}

pub fn find_constructor<'a>(entries: &'a Vec<(String, Constructor)>, key: &str) -> (r: Option<
    &'a Constructor,
>)
    ensures
        match r {
            Option::Some(c) => assoc_get(named_constructors_view(entries@), key@) == Option::Some(
                c@,
            ),
            Option::None => assoc_get(named_constructors_view(entries@), key@) is None,
        },
{
    let ghost all = named_constructors_view(entries@);
    let mut i: usize = 0;
    proof {
        assert(all.skip(0) =~= all);
    }
    while i < entries.len()
        invariant
            i <= entries@.len(),
            all == named_constructors_view(entries@),
            assoc_get(all, key@) == assoc_get(all.skip(i as int), key@),
        decreases entries@.len() - i,
    {
        proof {
            assert(all.skip(i as int)[0] == all[i as int]);
            assert(all.skip(i as int).drop_first() =~= all.skip(i + 1));
        }
        if crate::text::string_eq_str(&entries[i].0, key) {
            return Option::Some(&entries[i].1);
        }
        i = i + 1;
    }
    proof {
        assert(all.skip(entries@.len() as int) =~= Seq::<(Seq<char>, ConstructorV)>::empty());
    }
    Option::None
}

/// The view of a string-to-string mapping, such as a node's resolved type
/// parameters.
pub open spec fn named_strings_view(xs: Seq<(String, String)>) -> Seq<(Seq<char>, Seq<char>)> {
    xs.map_values(|p: (String, String)| (p.0@, p.1@))
}

pub fn find_string<'a>(entries: &'a Vec<(String, String)>, key: &str) -> (r: Option<&'a String>)
    ensures
        match r {
            Option::Some(s) => assoc_get(named_strings_view(entries@), key@) == Option::Some(s@),
            Option::None => assoc_get(named_strings_view(entries@), key@) is None,
        },
{
    let ghost all = named_strings_view(entries@);
    let mut i: usize = 0;
    proof {
        assert(all.skip(0) =~= all);
    }
    while i < entries.len()
        invariant
            i <= entries@.len(),
            all == named_strings_view(entries@),
            assoc_get(all, key@) == assoc_get(all.skip(i as int), key@),
        decreases entries@.len() - i,
    {
        proof {
            assert(all.skip(i as int)[0] == all[i as int]);
            assert(all.skip(i as int).drop_first() =~= all.skip(i + 1));
        }
        if crate::text::string_eq_str(&entries[i].0, key) {
            return Option::Some(&entries[i].1);
        }
        i = i + 1;
    }
    proof {
        assert(all.skip(entries@.len() as int) =~= Seq::<(Seq<char>, Seq<char>)>::empty());
    }
    Option::None
}

// ---------------------------------------------------------------------------
// Constructors of catalogue entries.
// ---------------------------------------------------------------------------
/// The type every prelude (scalar) entry carries: no ports, no parameters,
/// and the two constructors `Default` and `Json`.
pub open spec fn prelude_type_v() -> TypeV {
    TypeV {
        inputs: Option::None,
        outputs: Option::None,
        type_parameters: Option::None,
        constructors: seq![
            ("Default"@, ConstructorV::FromDefault),
            ("Json"@, ConstructorV::FromJson),
        ],
    }
}

impl Crate {
    pub fn new_with_types(types: Vec<(String, Type)>) -> (r: Self)
        ensures
            r@ == (CrateV { types: named_types_view(types@), modules: Seq::empty() }),
    {
        let r = Self { types, modules: Vec::new() };
        proof {
            assert(named_modules_view(r.modules@) =~= Seq::<(Seq<char>, ModuleV)>::empty());
        }
        r
    }
}

impl Type {
    pub fn new_with_constructor(constructor_name: &str, constructor: Constructor) -> (r: Self)
        ensures
            r@ == (TypeV {
                inputs: Option::None,
                outputs: Option::None,
                type_parameters: Option::None,
                constructors: seq![(constructor_name@, constructor@)],
            }),
    {
        let mut t = Self {
            inputs: Option::None,
            outputs: Option::None,
            type_parameters: Option::None,
            constructors: Vec::new(),
        };
        let ghost c = constructor@;
        t.constructors.push((constructor_name.to_owned(), constructor));
        proof {
            assert(named_constructors_view(t.constructors@) =~= seq![(constructor_name@, c)]);
        }
        t
    }

    pub fn new_prelude_type() -> (r: Self)
        ensures
            r@ == prelude_type_v(),
    {
        let mut t = Self {
            inputs: Option::None,
            outputs: Option::None,
            type_parameters: Option::None,
            constructors: Vec::new(),
        };
        t.constructors.push(("Default".to_owned(), Constructor::FromDefault));
        t.constructors.push(("Json".to_owned(), Constructor::FromJson));
        proof {
            assert(named_constructors_view(t.constructors@) =~= prelude_type_v().constructors);
        }
        t
    }

    pub fn new_simple() -> (r: Self)
        ensures
            r@ == (TypeV {
                inputs: Option::None,
                outputs: Option::None,
                type_parameters: Option::None,
                constructors: Seq::empty(),
            }),
    {
        let r = Self {
            inputs: Option::None,
            outputs: Option::None,
            type_parameters: Option::None,
            constructors: Vec::new(),
        };
        proof {
            assert(named_constructors_view(r.constructors@) =~= Seq::<
                (Seq<char>, ConstructorV),
            >::empty());
        }
        r
    }
}

// ---------------------------------------------------------------------------
// Namespaces.
// ---------------------------------------------------------------------------
/// The stack of enclosing object names under which a constructor is emitted.
pub struct Namespace {
    parts: Vec<String>,
}

impl View for Namespace {
    type V = Seq<Seq<char>>;

    closed spec fn view(&self) -> Seq<Seq<char>> {
        views_of(self.parts@)
    }
}

/// The text of a namespace: its parts joined with underscores.
pub open spec fn namespace_text(ns: Seq<Seq<char>>) -> Seq<char> {
    join_with(ns, "_"@)
}

impl Namespace {
    pub fn new() -> (r: Self)
        ensures
            r@ == Seq::<Seq<char>>::empty(),
    {
        Self { parts: Vec::new() }
    }

    pub fn add_part(&mut self, part: &str)
        ensures
            final(self)@ == old(self)@.push(part@),
    {
        self.parts.push(part.to_owned());
        proof {
            assert(final(self)@ =~= old(self)@.push(part@));
        }
    }

    pub fn is_empty(&self) -> (r: bool)
        ensures
            r == (self@.len() == 0),
    {
        self.parts.len() == 0
    }

    /// The namespace joined into one name part.
    pub fn to_text(&self) -> (r: String)
        ensures
            r@ == namespace_text(self@),
    {
        crate::text::join_strings(&self.parts, "_")
    }
}

// ---------------------------------------------------------------------------
// Emission: spec layer.
//
// Every emitted statement is specified as a function from the ghost views to
// the exact sequence of characters that the emitter produces.
// ---------------------------------------------------------------------------
/// A local binding's fully qualified name: mangled under the namespace unless
/// the namespace is empty or the name refers to an ambient local.
pub open spec fn fqn_text(name: Seq<char>, ns: Seq<Seq<char>>, ignore: bool) -> Seq<char> {
    if ns.len() == 0 || ignore {
        name
    } else {
        namespace_text(ns) + "_"@ + name
    }
}

pub open spec fn passing_prefix(p: ArgumentPassing) -> Seq<char> {
    match p {
        ArgumentPassing::Move => Seq::empty(),
        ArgumentPassing::Clone => Seq::empty(),
        ArgumentPassing::MutableReference => "&mut "@,
        ArgumentPassing::Reference => "&"@,
    }
}

pub open spec fn passing_postfix(p: ArgumentPassing) -> Seq<char> {
    match p {
        ArgumentPassing::Move => Seq::empty(),
        ArgumentPassing::Clone => ".clone()"@,
        ArgumentPassing::MutableReference => Seq::empty(),
        ArgumentPassing::Reference => Seq::empty(),
    }
}

/// One argument as it stands in the emitted constructor call.
pub open spec fn arg_call_text(a: ArgumentV, ns: Seq<Seq<char>>) -> Seq<char> {
    passing_prefix(a.passing) + fqn_text(a.name, ns, a.construction is ExistingObject)
        + passing_postfix(a.passing)
}

/// The whole argument list of the emitted constructor call.
pub open spec fn args_call_text(args: Seq<ArgumentV>, ns: Seq<Seq<char>>) -> Seq<char> {
    join_with(args.map_values(|a: ArgumentV| arg_call_text(a, ns)), ", "@)
}

/// The text of one type reference, generics substituted from `resolved`; an
/// unresolved generic symbol is a terminal error.
pub open spec fn td_text(ty: TypeDescriptionV, resolved: Seq<(Seq<char>, Seq<char>)>) -> Result<
    Seq<char>,
    EmitErrorV,
>
    decreases ty, 1nat,
{
    match ty {
        TypeDescriptionV::Type { name, type_parameters } => match td_suffix_text(
            type_parameters,
            resolved,
        ) {
            Result::Ok(suffix) => Result::Ok(name + suffix),
            Result::Err(e) => Result::Err(e),
        },
        TypeDescriptionV::Generic { name, type_parameters } => match assoc_get(resolved, name) {
            Option::Some(t) => match td_suffix_text(type_parameters, resolved) {
                Result::Ok(suffix) => Result::Ok(t + suffix),
                Result::Err(e) => Result::Err(e),
            },
            Option::None => Result::Err(EmitErrorV::UnresolvedGeneric),
        },
    }
}

/// The `<…>` suffix of a nested type reference; empty inside the brackets
/// means no brackets at all.
pub open spec fn td_suffix_text(
    tps: Option<Seq<TypeDescriptionV>>,
    resolved: Seq<(Seq<char>, Seq<char>)>,
) -> Result<Seq<char>, EmitErrorV>
    decreases tps, 1nat,
{
    match tps {
        Option::Some(ps) => if ps.len() == 0 {
            Result::Ok(Seq::empty())
        } else {
            match td_texts(ps, resolved) {
                Result::Ok(texts) => Result::Ok("<"@ + join_with(texts, ","@) + ">"@),
                Result::Err(e) => Result::Err(e),
            }
        },
        Option::None => Result::Ok(Seq::empty()),
    }
}

pub open spec fn td_texts(ps: Seq<TypeDescriptionV>, resolved: Seq<(Seq<char>, Seq<char>)>) -> Result<
    Seq<Seq<char>>,
    EmitErrorV,
>
    decreases ps, 0nat,
{
    if ps.len() == 0 {
        Result::Ok(Seq::empty())
    } else {
        match td_text(ps[0], resolved) {
            Result::Ok(t) => match td_texts(ps.drop_first(), resolved) {
                Result::Ok(ts) => Result::Ok(seq![t] + ts),
                Result::Err(e) => Result::Err(e),
            },
            Result::Err(e) => Result::Err(e),
        }
    }
}

/// The items of an argument's type-parameter part; each item keeps a trailing
/// comma.
pub open spec fn tp_outer_items(
    ps: Seq<TypeDescriptionV>,
    resolved: Seq<(Seq<char>, Seq<char>)>,
) -> Result<Seq<char>, EmitErrorV>
    decreases ps, 0nat,
{
    if ps.len() == 0 {
        Result::Ok(Seq::empty())
    } else {
        match td_text(ps[0], resolved) {
            Result::Ok(t) => match tp_outer_items(ps.drop_first(), resolved) {
                Result::Ok(rest) => Result::Ok(t + ","@ + rest),
                Result::Err(e) => Result::Err(e),
            },
            Result::Err(e) => Result::Err(e),
        }
    }
}

/// An argument's `<T1,T2,…,>` part, generics substituted from `resolved`; an
/// unresolved symbol anywhere in the walk aborts it.
pub open spec fn arg_tp_part_text(
    tps: Option<Seq<TypeDescriptionV>>,
    resolved: Seq<(Seq<char>, Seq<char>)>,
) -> Result<Seq<char>, EmitErrorV> {
    match tps {
        Option::Some(ps) => if ps.len() == 0 {
            Result::Ok(Seq::empty())
        } else {
            match tp_outer_items(ps, resolved) {
                Result::Ok(items) => Result::Ok("<"@ + items + ">"@),
                Result::Err(e) => Result::Err(e),
            }
        },
        Option::None => Result::Ok(Seq::empty()),
    }
}

pub open spec fn mutable_text(is_mutable: bool) -> Seq<char> {
    if is_mutable {
        " mut"@
    } else {
        Seq::empty()
    }
}

pub open spec fn function_name_text(f: Option<Seq<char>>) -> Seq<char> {
    match f {
        Option::Some(n) => n,
        Option::None => "new"@,
    }
}

pub open spec fn json_path_segments(ns: Seq<Seq<char>>) -> Seq<char>
    decreases ns,
{
    if ns.len() == 0 {
        Seq::empty()
    } else {
        json_path_segments(ns.drop_last()) + "[\""@ + ns.last() + "\"]"@
    }
}

/// The JSON path under which a `FromJson` object is read out of the ambient
/// `data` value: one index per namespace segment, then the object's name.
pub open spec fn json_path_text(ns: Seq<Seq<char>>, obj_name: Seq<char>) -> Seq<char> {
    json_path_segments(ns) + "[\""@ + obj_name + "\"]"@
}

/// The statement a `FromDefault` constructor emits.
pub open spec fn default_text(od: ObjectDescriptionV, ns: Seq<Seq<char>>) -> Seq<char> {
    "let"@ + mutable_text(od.is_mutable) + " "@ + fqn_text(od.name, ns, false) + ":"@
        + od.type_path + od.type_parameter_part + " = Default::default();"@
}

/// The statement a `FromJson` constructor emits.
pub open spec fn from_json_text(od: ObjectDescriptionV, ns: Seq<Seq<char>>) -> Seq<char> {
    "let"@ + mutable_text(od.is_mutable) + " "@ + fqn_text(od.name, ns, false) + ": "@
        + od.type_path + od.type_parameter_part + " = serde_json::from_value(data"@
        + json_path_text(ns, od.name) + ".clone()).expect(\"Could not create '"@ + fqn_text(
        od.name,
        ns,
        false,
    ) + "' from Json.\");"@
}

/// The final call statement of the `New` constructor family.
pub open spec fn call_stmt_text(
    od: ObjectDescriptionV,
    f: Option<Seq<char>>,
    args: Seq<ArgumentV>,
    ns: Seq<Seq<char>>,
    new_ns: Seq<Seq<char>>,
) -> Seq<char> {
    "let"@ + mutable_text(od.is_mutable) + " "@ + fqn_text(od.name, ns, false) + " = "@
        + od.type_path + "::"@ + (if od.type_parameter_part.len() == 0 {
        Seq::<char>::empty()
    } else {
        od.type_parameter_part + "::"@
    }) + function_name_text(f) + "("@ + args_call_text(args, new_ns) + ");"@
}

/// The synthetic argument bound to the ambient change observer.
pub open spec fn observer_arg_v() -> ArgumentV {
    ArgumentV {
        arg_type: TypeDescriptionV::Type { name: "()"@, type_parameters: Option::None },
        name: "change_observer"@,
        passing: ArgumentPassing::Clone,
        construction: ArgumentConstructionV::ExistingObject,
    }
}

/// The synthetic argument bound to the ambient context.
pub open spec fn context_arg_v() -> ArgumentV {
    ArgumentV {
        arg_type: TypeDescriptionV::Type { name: "()"@, type_parameters: Option::None },
        name: "context"@,
        passing: ArgumentPassing::Clone,
        construction: ArgumentConstructionV::ExistingObject,
    }
}

/// The fixed placeholders a `FromCode` template is rendered with.
pub open spec fn code_base_map(od: ObjectDescriptionV, ns: Seq<Seq<char>>) -> Map<
    Seq<char>,
    Seq<char>,
> {
    Map::empty().insert("fully_qualified_name"@, fqn_text(od.name, ns, false)).insert(
        "type_name"@,
        od.type_path,
    ).insert("type_parameter_part"@, od.type_parameter_part).insert(
        "mutable"@,
        mutable_text(od.is_mutable),
    )
}

/// One placeholder per resolved generic symbol, on top of the fixed ones.
pub open spec fn insert_tp_placeholders(
    m: Map<Seq<char>, Seq<char>>,
    tps: Seq<(Seq<char>, Seq<char>)>,
) -> Map<Seq<char>, Seq<char>>
    decreases tps.len(),
{
    if tps.len() == 0 {
        m
    } else {
        insert_tp_placeholders(m, tps.drop_last()).insert(
            "type_parameter_"@ + tps.last().0,
            tps.last().1,
        )
    }
}

pub open spec fn code_data_map(
    od: ObjectDescriptionV,
    ns: Seq<Seq<char>>,
    tps: Seq<(Seq<char>, Seq<char>)>,
) -> Map<Seq<char>, Seq<char>> {
    insert_tp_placeholders(code_base_map(od, ns), tps)
}

pub ghost enum EmitErrorV {
    UnknownType { name: Seq<char> },
    UnknownConstructor { constructor: Seq<char>, type_path: Seq<char> },
    UnresolvedGeneric,
    Template,
    RecursionLimit,
}

/// What emitting a constructor produces: the source text of all statements
/// that build the object (sub-objects first), or the first error met. `fuel`
/// bounds the depth of nested sub-constructions.
pub open spec fn ctor_text(
    c: ConstructorV,
    od: ObjectDescriptionV,
    tps: Seq<(Seq<char>, Seq<char>)>,
    pkgs: Seq<PackageV>,
    ns: Seq<Seq<char>>,
    fuel: nat,
) -> Result<Seq<char>, EmitErrorV>
    decreases fuel, 3nat, 0nat,
{
    if fuel == 0 {
        Result::Err(EmitErrorV::RecursionLimit)
    } else {
        match c {
            ConstructorV::New { function_name } => new_with_args_text(
                od,
                tps,
                function_name,
                pkgs,
                Seq::empty(),
                ns,
                fuel,
            ),
            ConstructorV::NewWithObserver { function_name } => new_with_args_text(
                od,
                tps,
                function_name,
                pkgs,
                seq![observer_arg_v()],
                ns,
                fuel,
            ),
            ConstructorV::NewWithObserverAndContext { function_name } => new_with_args_text(
                od,
                tps,
                function_name,
                pkgs,
                seq![observer_arg_v(), context_arg_v()],
                ns,
                fuel,
            ),
            ConstructorV::NewWithArbitraryArgs { function_name, arguments } => new_with_args_text(
                od,
                tps,
                function_name,
                pkgs,
                arguments,
                ns,
                fuel,
            ),
            ConstructorV::FromJson => Result::Ok(from_json_text(od, ns)),
            ConstructorV::FromDefault => Result::Ok(default_text(od, ns)),
            ConstructorV::FromCode { code_template } => match crate::ext::guarded_render(
                code_template,
                code_data_map(od, ns, tps),
            ) {
                Option::Some(s) => Result::Ok(s),
                Option::None => Result::Err(EmitErrorV::Template),
            },
        }
    }
}

/// The shared shape of the `New` constructor family: sub-constructions for
/// the arguments under the namespace extended by the object's name, then one
/// call statement.
pub open spec fn new_with_args_text(
    od: ObjectDescriptionV,
    tps: Seq<(Seq<char>, Seq<char>)>,
    f: Option<Seq<char>>,
    pkgs: Seq<PackageV>,
    args: Seq<ArgumentV>,
    ns: Seq<Seq<char>>,
    fuel: nat,
) -> Result<Seq<char>, EmitErrorV>
    decreases fuel, 2nat, 0nat,
{
    let new_ns = ns.push(od.name);
    match arg_blocks_text(pkgs, args, new_ns, tps, fuel) {
        Result::Ok(blocks) => Result::Ok(
            join_with(blocks, "\n"@) + "\n"@ + call_stmt_text(od, f, args, ns, new_ns),
        ),
        Result::Err(e) => Result::Err(e),
    }
}

/// The construction blocks of the arguments that carry a constructor; an
/// `ExistingObject` argument needs no construction.
pub open spec fn arg_blocks_text(
    pkgs: Seq<PackageV>,
    args: Seq<ArgumentV>,
    ns: Seq<Seq<char>>,
    tps: Seq<(Seq<char>, Seq<char>)>,
    fuel: nat,
) -> Result<Seq<Seq<char>>, EmitErrorV>
    decreases fuel, 1nat, args.len(),
{
    if args.len() == 0 {
        Result::Ok(Seq::empty())
    } else {
        match args[0].construction {
            ArgumentConstructionV::Constructor(cname) => match arg_construction_text(
                args[0],
                cname,
                pkgs,
                ns,
                tps,
                fuel,
            ) {
                Result::Ok(code) => match arg_blocks_text(
                    pkgs,
                    args.drop_first(),
                    ns,
                    tps,
                    fuel,
                ) {
                    Result::Ok(bs) => Result::Ok(seq![code] + bs),
                    Result::Err(e) => Result::Err(e),
                },
                Result::Err(e) => Result::Err(e),
            },
            ArgumentConstructionV::ExistingObject => arg_blocks_text(
                pkgs,
                args.drop_first(),
                ns,
                tps,
                fuel,
            ),
        }
    }
}

/// One argument's recursive construction: resolve its type (through the
/// node's generic mapping where the reference is generic), look the named
/// constructor up on the resolved type, and emit it with the argument's name
/// as the object name.
pub open spec fn arg_construction_text(
    arg: ArgumentV,
    cname: Seq<char>,
    pkgs: Seq<PackageV>,
    ns: Seq<Seq<char>>,
    tps: Seq<(Seq<char>, Seq<char>)>,
    fuel: nat,
) -> Result<Seq<char>, EmitErrorV>
    decreases fuel, 0nat, 0nat,
{
    match arg.arg_type {
        TypeDescriptionV::Type { name, type_parameters } => match crate::package_manager::get_type_spec(
            pkgs,
            name,
        ) {
            Option::Some(td) => match assoc_get(td.constructors, cname) {
                Option::Some(ctor) => if fuel == 0 {
                    Result::Err(EmitErrorV::RecursionLimit)
                } else {
                    match arg_tp_part_text(type_parameters, tps) {
                        Result::Ok(part) => ctor_text(
                            ctor,
                            ObjectDescriptionV {
                                type_path: name,
                                type_parameter_part: part,
                                name: arg.name,
                                is_mutable: arg.passing is MutableReference,
                            },
                            tps,
                            pkgs,
                            ns,
                            (fuel - 1) as nat,
                        ),
                        Result::Err(e) => Result::Err(e),
                    }
                },
                Option::None => Result::Err(
                    EmitErrorV::UnknownConstructor { constructor: cname, type_path: name },
                ),
            },
            Option::None => Result::Err(EmitErrorV::UnknownType { name }),
        },
        TypeDescriptionV::Generic { name, type_parameters } => match assoc_get(tps, name) {
            Option::Some(resolved) => match crate::package_manager::get_type_spec(
                pkgs,
                resolved,
            ) {
                Option::Some(td) => match assoc_get(td.constructors, cname) {
                    Option::Some(ctor) => if fuel == 0 {
                        Result::Err(EmitErrorV::RecursionLimit)
                    } else {
                        match arg_tp_part_text(type_parameters, tps) {
                            Result::Ok(part) => ctor_text(
                                ctor,
                                ObjectDescriptionV {
                                    type_path: resolved,
                                    type_parameter_part: part,
                                    name: arg.name,
                                    is_mutable: arg.passing is MutableReference,
                                },
                                tps,
                                pkgs,
                                ns,
                                (fuel - 1) as nat,
                            ),
                            Result::Err(e) => Result::Err(e),
                        }
                    },
                    Option::None => Result::Err(
                        EmitErrorV::UnknownConstructor { constructor: cname, type_path: name },
                    ),
                },
                Option::None => Result::Err(EmitErrorV::UnknownType { name: resolved }),
            },
            Option::None => Result::Err(EmitErrorV::UnresolvedGeneric),
        },
    }
}

// ---------------------------------------------------------------------------
// Emission: executable layer.
// ---------------------------------------------------------------------------
impl Argument {
    pub fn emit_prefix_code(&self) -> (r: String)
        ensures
            r@ == passing_prefix(self.passing),
    {
        match self.passing {
            ArgumentPassing::Move => String::new(),
            ArgumentPassing::Clone => String::new(),
            ArgumentPassing::MutableReference => "&mut ".to_owned(),
            ArgumentPassing::Reference => "&".to_owned(),
        }
    }

    pub fn emit_postfix_code(&self) -> (r: String)
        ensures
            r@ == passing_postfix(self.passing),
    {
        match self.passing {
            ArgumentPassing::Move => String::new(),
            ArgumentPassing::Clone => ".clone()".to_owned(),
            ArgumentPassing::MutableReference => String::new(),
            ArgumentPassing::Reference => String::new(),
        }
    }

    pub fn new_change_observer_arg() -> (r: Self)
        ensures
            r@ == observer_arg_v(),
    {
        Self {
            arg_type: TypeDescription::Type { name: "()".to_owned(), type_parameters: Option::None },
            name: "change_observer".to_owned(),
            passing: ArgumentPassing::Clone,
            construction: ArgumentConstruction::ExistingObject,
        }
    }

    pub fn new_context_arg() -> (r: Self)
        ensures
            r@ == context_arg_v(),
    {
        Self {
            arg_type: TypeDescription::Type { name: "()".to_owned(), type_parameters: Option::None },
            name: "context".to_owned(),
            passing: ArgumentPassing::Clone,
            construction: ArgumentConstruction::ExistingObject,
        }
    }

    pub fn into_object_description(&self, type_path: &String, type_parameter_part: &String) -> (r:
        ObjectDescription)
        ensures
            r@ == (ObjectDescriptionV {
                type_path: type_path@,
                type_parameter_part: type_parameter_part@,
                name: self.name@,
                is_mutable: self.passing is MutableReference,
            }),
    {
        ObjectDescription {
            type_path: type_path.clone(),
            type_parameter_part: type_parameter_part.clone(),
            name: self.name.clone(),
            is_mutable: match self.passing {
                ArgumentPassing::MutableReference => true,
                _ => false,
            },
        }
    }
}

impl Constructor {
    fn emit_fully_qualified_name(&self, name: &String, namespace: &Namespace, ignore: bool) -> (r:
        String)
        ensures
            r@ == fqn_text(name@, namespace@, ignore),
    {
        if namespace.is_empty() || ignore {
            name.clone()
        } else {
            let mut r = namespace.to_text();
            r.append("_");
            r.append(name.as_str());
            r
        }
    }

    fn emit_mutable(&self, is_mutable: bool) -> (r: String)
        ensures
            r@ == mutable_text(is_mutable),
    {
        if is_mutable {
            " mut".to_owned()
        } else {
            String::new()
        }
    }

    fn emit_function_name(&self, function_name: &Option<String>) -> (r: String)
        ensures
            r@ == function_name_text(option_string_view(*function_name)),
    {
        match function_name {
            Option::Some(func_name) => func_name.clone(),
            Option::None => "new".to_owned(),
        }
    }

    fn emit_json_path(&self, cn: &Namespace, od: &ObjectDescription) -> (r: String)
        ensures
            r@ == json_path_text(cn@, od@.name),
    {
        let mut r = String::new();
        let mut i: usize = 0;
        proof {
            assert(json_path_segments(cn@.take(0)) =~= Seq::<char>::empty());
            assert(r@ =~= json_path_segments(cn@.take(0)));
        }
        while i < cn.parts.len()
            invariant
                i <= cn.parts@.len(),
                cn@.len() == cn.parts@.len(),
                forall|j: int| 0 <= j < cn.parts@.len() ==> cn@[j] == cn.parts@[j]@,
                r@ == json_path_segments(cn@.take(i as int)),
            decreases cn.parts@.len() - i,
        {
            r.append("[\"");
            r.append(cn.parts[i].as_str());
            r.append("\"]");
            proof {
                assert(cn@.take(i + 1).drop_last() =~= cn@.take(i as int));
                assert(cn@.take(i + 1).last() == cn@[i as int]);
            }
            i = i + 1;
        }
        proof {
            assert(cn@.take(cn@.len() as int) =~= cn@);
        }
        r.append("[\"");
        r.append(od.name.as_str());
        r.append("\"]");
        r
    }

    fn emit_args(&self, args: &Vec<Argument>, current_namespace: &Namespace) -> (r: String)
        ensures
            r@ == args_call_text(arguments_view(args@), current_namespace@),
    {
        let ghost goal = arguments_view(args@).map_values(
            |a: ArgumentV| arg_call_text(a, current_namespace@),
        );
        let mut fragments: Vec<String> = Vec::new();
        let mut i: usize = 0;
        while i < args.len()
            invariant
                i <= args@.len(),
                goal == arguments_view(args@).map_values(
                    |a: ArgumentV| arg_call_text(a, current_namespace@),
                ),
                goal.len() == args@.len(),
                fragments@.len() == i,
                forall|j: int| 0 <= j < i ==> fragments@[j]@ == goal[j],
            decreases args@.len() - i,
        {
            let arg = &args[i];
            let mut fragment = arg.emit_prefix_code();
            let is_existing = match arg.construction {
                ArgumentConstruction::ExistingObject => true,
                _ => false,
            };
            let fqn = self.emit_fully_qualified_name(&arg.name, current_namespace, is_existing);
            fragment.append(fqn.as_str());
            let postfix = arg.emit_postfix_code();
            fragment.append(postfix.as_str());
            proof {
                assert(arguments_view(args@)[i as int] == args@[i as int]@);
                assert(fragment@ == arg_call_text(args@[i as int]@, current_namespace@));
            }
            fragments.push(fragment);
            i = i + 1;
        }
        proof {
            assert(views_of(fragments@) =~= goal);
        }
        crate::text::join_strings(&fragments, ", ")
    }
}

/// The view of an optional list of type references.
pub open spec fn opt_tds_view(o: Option<Vec<TypeDescription>>) -> Option<Seq<TypeDescriptionV>> {
    match o {
        Option::Some(ps) => Option::Some(type_descs_view(ps@)),
        Option::None => Option::None,
    }
}

/// The recursive type-reference view indexes like the element-wise views.
pub proof fn lemma_type_descs_view_index(xs: Seq<TypeDescription>)
    ensures
        type_descs_view(xs).len() == xs.len(),
        forall|j: int| 0 <= j < xs.len() ==> type_descs_view(xs)[j] == xs[j]@,
    decreases xs.len(),
{
    if xs.len() > 0 {
        lemma_type_descs_view_index(xs.drop_last());
        assert(type_descs_view(xs) == type_descs_view(xs.drop_last()).push(xs.last()@));
        assert forall|j: int| 0 <= j < xs.len() implies type_descs_view(xs)[j] == xs[j]@ by {
            if j < xs.len() - 1 {
                assert(xs.drop_last()[j] == xs[j]);
            }
        }
    }
}

/// The generic symbols within one type reference that the enclosing mapping
/// resolves, paired with their resolutions, in traversal order.
pub open spec fn resolved_generics(
    ty: TypeDescriptionV,
    already: Seq<(Seq<char>, Seq<char>)>,
) -> Seq<(Seq<char>, Seq<char>)>
    decreases ty,
{
    match ty {
        TypeDescriptionV::Type { name, type_parameters } => resolved_generics_opt(
            type_parameters,
            already,
        ),
        TypeDescriptionV::Generic { name, type_parameters } => (match assoc_get(already, name) {
            Option::Some(v) => seq![(name, v)],
            Option::None => Seq::<(Seq<char>, Seq<char>)>::empty(),
        }) + resolved_generics_opt(type_parameters, already),
    }
}

pub open spec fn resolved_generics_opt(
    tps: Option<Seq<TypeDescriptionV>>,
    already: Seq<(Seq<char>, Seq<char>)>,
) -> Seq<(Seq<char>, Seq<char>)>
    decreases tps,
{
    match tps {
        Option::Some(ps) => resolved_generics_list(ps, already),
        Option::None => Seq::empty(),
    }
}

pub open spec fn resolved_generics_list(
    ps: Seq<TypeDescriptionV>,
    already: Seq<(Seq<char>, Seq<char>)>,
) -> Seq<(Seq<char>, Seq<char>)>
    decreases ps,
{
    if ps.len() == 0 {
        Seq::empty()
    } else {
        resolved_generics_list(ps.drop_last(), already) + resolved_generics(ps.last(), already)
    }
}

impl Constructor {
    /// Collects the generic symbols of an argument's type reference that the
    /// enclosing mapping resolves, with their resolutions.
    fn get_resolved_arg_type_parameters(
        &self,
        arg_type: &TypeDescription,
        already_resolved_tps: &Vec<(String, String)>,
        resolved_tps: &mut Vec<(String, String)>,
    )
        ensures
            named_strings_view(final(resolved_tps)@) == named_strings_view(old(resolved_tps)@)
                + resolved_generics(arg_type@, named_strings_view(already_resolved_tps@)),
        decreases arg_type,
    {
        let ghost already = named_strings_view(already_resolved_tps@);
        match arg_type {
            TypeDescription::Type { name, type_parameters } => {
                match type_parameters {
                    Option::Some(params) => {
                        proof {
                            lemma_type_descs_view_index(params@);
                        }
                        self.collect_resolved_list(params, already_resolved_tps, resolved_tps);
                    },
                    Option::None => {},
                }
                proof {
                    assert(named_strings_view(resolved_tps@) =~= named_strings_view(
                        old(resolved_tps)@,
                    ) + resolved_generics(arg_type@, already));
                }
            },
            TypeDescription::Generic { name, type_parameters } => {
                match find_string(already_resolved_tps, name.as_str()) {
                    Option::Some(resolved_name) => {
                        resolved_tps.push((name.clone(), resolved_name.clone()));
                    },
                    Option::None => {},
                }
                match type_parameters {
                    Option::Some(params) => {
                        proof {
                            lemma_type_descs_view_index(params@);
                        }
                        self.collect_resolved_list(params, already_resolved_tps, resolved_tps);
                    },
                    Option::None => {},
                }
                proof {
                    assert(named_strings_view(resolved_tps@) =~= named_strings_view(
                        old(resolved_tps)@,
                    ) + resolved_generics(arg_type@, already));
                }
            },
        }
    }

    fn collect_resolved_list(
        &self,
        params: &Vec<TypeDescription>,
        already_resolved_tps: &Vec<(String, String)>,
        resolved_tps: &mut Vec<(String, String)>,
    )
        ensures
            named_strings_view(final(resolved_tps)@) == named_strings_view(old(resolved_tps)@)
                + resolved_generics_list(
                type_descs_view(params@),
                named_strings_view(already_resolved_tps@),
            ),
        decreases params,
    {
        let ghost already = named_strings_view(already_resolved_tps@);
        let ghost psv = type_descs_view(params@);
        let ghost base = named_strings_view(resolved_tps@);
        proof {
            lemma_type_descs_view_index(params@);
        }
        let mut i: usize = 0;
        while i < params.len()
            invariant
                i <= params@.len(),
                psv == type_descs_view(params@),
                already == named_strings_view(already_resolved_tps@),
                psv.len() == params@.len(),
                forall|j: int| 0 <= j < params@.len() ==> psv[j] == params@[j]@,
                named_strings_view(resolved_tps@) == base + resolved_generics_list(
                    psv.take(i as int),
                    already,
                ),
            decreases params@.len() - i,
        {
            self.get_resolved_arg_type_parameters(
                &params[i],
                already_resolved_tps,
                resolved_tps,
            );
            proof {
                assert(psv.take(i + 1).drop_last() =~= psv.take(i as int));
                assert(psv.take(i + 1).last() == psv[i as int]);
                assert(named_strings_view(resolved_tps@) =~= base + resolved_generics_list(
                    psv.take(i + 1),
                    already,
                ));
            }
            i = i + 1;
        }
        proof {
            assert(psv.take(params@.len() as int) =~= psv);
        }
    }

    /// Walks one type reference, appending its text; an unresolved generic
    /// symbol aborts the walk with an error.
    fn emit_arg_type_parameters_part_rec(
        &self,
        tp_part: &mut String,
        argument_type: &TypeDescription,
        resolved_type_parameters: &Vec<(String, String)>,
    ) -> (r: Result<(), EmitError>)
        ensures
            ({
                let s = td_text(argument_type@, named_strings_view(resolved_type_parameters@));
                match r {
                    Result::Ok(_) => s matches Result::Ok(t) && final(tp_part)@ == old(tp_part)@
                        + t,
                    Result::Err(e) => s == Result::<Seq<char>, EmitErrorV>::Err(e@),
                }
            }),
        decreases argument_type,
    {
        let ghost resolved = named_strings_view(resolved_type_parameters@);
        match argument_type {
            TypeDescription::Type { name, type_parameters } => {
                tp_part.append(name.as_str());
                match type_parameters {
                    Option::Some(params) => {
                        proof {
                            lemma_type_descs_view_index(params@);
                        }
                        if params.len() > 0 {
                            match self.emit_td_list(
                                tp_part,
                                params,
                                resolved_type_parameters,
                            ) {
                                Result::Ok(_) => {},
                                Result::Err(e) => {
                                    return Result::Err(e);
                                },
                            }
                        } else {
                            proof {
                                assert(type_descs_view(params@) =~= Seq::<
                                    TypeDescriptionV,
                                >::empty());
                            }
                        }
                    },
                    Option::None => {},
                }
                proof {
                    assert(tp_part@ =~= old(tp_part)@ + td_text(argument_type@, resolved)->Ok_0);
                }
                Result::Ok(())
            },
            TypeDescription::Generic { name, type_parameters } => {
                match find_string(resolved_type_parameters, name.as_str()) {
                    Option::Some(tn) => {
                        tp_part.append(tn.as_str());
                    },
                    Option::None => {
                        return Result::Err(EmitError::UnresolvedGeneric);
                    },
                }
                match type_parameters {
                    Option::Some(params) => {
                        proof {
                            lemma_type_descs_view_index(params@);
                        }
                        if params.len() > 0 {
                            match self.emit_td_list(
                                tp_part,
                                params,
                                resolved_type_parameters,
                            ) {
                                Result::Ok(_) => {},
                                Result::Err(e) => {
                                    return Result::Err(e);
                                },
                            }
                        } else {
                            proof {
                                assert(type_descs_view(params@) =~= Seq::<
                                    TypeDescriptionV,
                                >::empty());
                            }
                        }
                    },
                    Option::None => {},
                }
                proof {
                    assert(tp_part@ =~= old(tp_part)@ + td_text(argument_type@, resolved)->Ok_0);
                }
                Result::Ok(())
            },
        }
    }

    /// Appends `<a,b,…>` for a non-empty list of type references, without a
    /// trailing comma; an unresolved generic aborts.
    fn emit_td_list(
        &self,
        tp_part: &mut String,
        params: &Vec<TypeDescription>,
        resolved_type_parameters: &Vec<(String, String)>,
    ) -> (r: Result<(), EmitError>)
        requires
            params@.len() > 0,
        ensures
            ({
                let s = td_texts(
                    type_descs_view(params@),
                    named_strings_view(resolved_type_parameters@),
                );
                match r {
                    Result::Ok(_) => s matches Result::Ok(ts) && final(tp_part)@ == old(tp_part)@
                        + "<"@ + join_with(ts, ","@) + ">"@,
                    Result::Err(e) => s == Result::<Seq<Seq<char>>, EmitErrorV>::Err(e@),
                }
            }),
        decreases params,
    {
        let ghost resolved = named_strings_view(resolved_type_parameters@);
        let ghost psv = type_descs_view(params@);
        let ghost full = td_texts(psv, resolved);
        let ghost base = tp_part@;
        let ghost mut done: Seq<Seq<char>> = Seq::empty();
        proof {
            lemma_type_descs_view_index(params@);
            assert(psv.skip(0) =~= psv);
        }
        tp_part.append("<");
        let mut i: usize = 0;
        while i < params.len()
            invariant
                0 <= i <= params@.len(),
                psv == type_descs_view(params@),
                resolved == named_strings_view(resolved_type_parameters@),
                full == td_texts(psv, resolved),
                psv.len() == params@.len(),
                forall|j: int| 0 <= j < params@.len() ==> psv[j] == params@[j]@,
                done.len() == i,
                tp_part@ == base + "<"@ + join_with(done, ","@),
                ({
                    let tail = td_texts(psv.skip(i as int), resolved);
                    match tail {
                        Result::Ok(ts) => full == Result::<Seq<Seq<char>>, EmitErrorV>::Ok(
                            done + ts,
                        ),
                        Result::Err(e) => full == Result::<Seq<Seq<char>>, EmitErrorV>::Err(e),
                    }
                }),
            decreases params@.len() - i,
        {
            proof {
                assert(psv.skip(i as int)[0] == psv[i as int]);
                assert(psv.skip(i as int).drop_first() =~= psv.skip(i + 1));
            }
            if i > 0 {
                tp_part.append(",");
            }
            match self.emit_arg_type_parameters_part_rec(
                tp_part,
                &params[i],
                resolved_type_parameters,
            ) {
                Result::Ok(_) => {},
                Result::Err(e) => {
                    return Result::Err(e);
                },
            }
            proof {
                let t_i = td_text(psv[i as int], resolved)->Ok_0;
                let done0 = done;
                done = done.push(t_i);
                assert(done.drop_last() =~= done0);
                assert(done.last() == t_i);
                assert(tp_part@ =~= base + "<"@ + join_with(done, ","@));
                let tail1 = td_texts(psv.skip(i + 1), resolved);
                if tail1 is Ok {
                    assert(done + tail1->Ok_0 =~= done0 + (seq![t_i] + tail1->Ok_0));
                }
            }
            i = i + 1;
        }
        proof {
            assert(psv.skip(params@.len() as int) =~= Seq::<TypeDescriptionV>::empty());
            assert(done + Seq::<Seq<char>>::empty() =~= done);
        }
        tp_part.append(">");
        Result::Ok(())
    }

    /// The `<T1,T2,…,>` part of an argument's type, each item with a trailing
    /// comma; an unresolved generic anywhere in the walk is an error.
    fn emit_arg_type_parameters_part(
        &self,
        arg_type_parameters: &Option<Vec<TypeDescription>>,
        type_parameters: &Vec<(String, String)>,
    ) -> (r: Result<String, EmitError>)
        ensures
            ({
                let s = arg_tp_part_text(
                    opt_tds_view(*arg_type_parameters),
                    named_strings_view(type_parameters@),
                );
                match r {
                    Result::Ok(part) => s == Result::<Seq<char>, EmitErrorV>::Ok(part@),
                    Result::Err(e) => s == Result::<Seq<char>, EmitErrorV>::Err(e@),
                }
            }),
    {
        let ghost resolved = named_strings_view(type_parameters@);
        match arg_type_parameters {
            Option::Some(arg_type_params) => {
                if arg_type_params.len() > 0 {
                    let ghost psv = type_descs_view(arg_type_params@);
                    let ghost full = tp_outer_items(psv, resolved);
                    let ghost mut acc: Seq<char> = Seq::empty();
                    proof {
                        lemma_type_descs_view_index(arg_type_params@);
                        assert(psv.skip(0) =~= psv);
                    }
                    let mut tp_part = "<".to_owned();
                    proof {
                        assert(tp_part@ =~= "<"@ + acc);
                    }
                    let mut i: usize = 0;
                    while i < arg_type_params.len()
                        invariant
                            0 <= i <= arg_type_params@.len(),
                            psv == type_descs_view(arg_type_params@),
                            opt_tds_view(*arg_type_parameters) == Option::Some(psv),
                            resolved == named_strings_view(type_parameters@),
                            full == tp_outer_items(psv, resolved),
                            psv.len() == arg_type_params@.len(),
                            forall|j: int|
                                0 <= j < arg_type_params@.len() ==> psv[j] == arg_type_params@[j]@,
                            tp_part@ == "<"@ + acc,
                            ({
                                let tail = tp_outer_items(psv.skip(i as int), resolved);
                                match tail {
                                    Result::Ok(rest) => full == Result::<
                                        Seq<char>,
                                        EmitErrorV,
                                    >::Ok(acc + rest),
                                    Result::Err(e) => full == Result::<
                                        Seq<char>,
                                        EmitErrorV,
                                    >::Err(e),
                                }
                            }),
                        decreases arg_type_params@.len() - i,
                    {
                        proof {
                            assert(psv.skip(i as int)[0] == psv[i as int]);
                            assert(psv.skip(i as int).drop_first() =~= psv.skip(i + 1));
                        }
                        match self.emit_arg_type_parameters_part_rec(
                            &mut tp_part,
                            &arg_type_params[i],
                            type_parameters,
                        ) {
                            Result::Ok(_) => {},
                            Result::Err(e) => {
                                return Result::Err(e);
                            },
                        }
                        tp_part.append(",");
                        proof {
                            let t_i = td_text(psv[i as int], resolved)->Ok_0;
                            let acc0 = acc;
                            acc = acc + t_i + ","@;
                            assert(tp_part@ =~= "<"@ + acc);
                            let tail1 = tp_outer_items(psv.skip(i + 1), resolved);
                            if tail1 is Ok {
                                assert(acc + tail1->Ok_0 =~= acc0 + (t_i + ","@ + tail1->Ok_0));
                            }
                        }
                        i = i + 1;
                    }
                    proof {
                        assert(psv.skip(arg_type_params@.len() as int) =~= Seq::<
                            TypeDescriptionV,
                        >::empty());
                        assert(acc + Seq::<char>::empty() =~= acc);
                    }
                    tp_part.append(">");
                    proof {
                        assert(tp_part@ =~= "<"@ + full->Ok_0 + ">"@);
                    }
                    Result::Ok(tp_part)
                } else {
                    Result::Ok(String::new())
                }
            },
            Option::None => Result::Ok(String::new()),
        }
    }
}

/// How deeply sub-constructions may nest before emission gives up.
pub const EMIT_RECURSION_LIMIT: u64 = 64;

#[derive(Debug, PartialEq)]
pub enum EmitError {
    UnknownType { name: String },
    UnknownConstructor { constructor: String, type_path: String },
    UnresolvedGeneric,
    Template { message: String },
    RecursionLimit,
}

impl View for EmitError {
    type V = EmitErrorV;

    open spec fn view(&self) -> EmitErrorV {
        match self {
            EmitError::UnknownType { name } => EmitErrorV::UnknownType { name: name@ },
            EmitError::UnknownConstructor { constructor, type_path } => EmitErrorV::UnknownConstructor {
                constructor: constructor@,
                type_path: type_path@,
            },
            EmitError::UnresolvedGeneric => EmitErrorV::UnresolvedGeneric,
            EmitError::Template { .. } => EmitErrorV::Template,
            EmitError::RecursionLimit => EmitErrorV::RecursionLimit,
        }
    }
}

/// The failure text of an emission error.
pub open spec fn emit_error_message(e: EmitError) -> Seq<char> {
    match e {
        EmitError::UnknownType { name } => "Type description for '"@ + name@ + "' not found."@,
        EmitError::UnknownConstructor { constructor, type_path } => "Constructor '"@ + constructor@
            + "' for type '"@ + type_path@ + "' not found."@,
        EmitError::UnresolvedGeneric => "Generic type was not resolved"@,
        EmitError::Template { message } => message@,
        EmitError::RecursionLimit => "Constructor nesting is too deep"@,
    }
}

impl EmitError {
    /// Renders the failure, naming the offending qualified name.
    pub fn message(&self) -> (r: String)
        ensures
            r@ == emit_error_message(*self),
    {
        match self {
            EmitError::UnknownType { name } => {
                let mut r = "Type description for '".to_owned();
                r.append(name.as_str());
                r.append("' not found.");
                r
            },
            EmitError::UnknownConstructor { constructor, type_path } => {
                let mut r = "Constructor '".to_owned();
                r.append(constructor.as_str());
                r.append("' for type '");
                r.append(type_path.as_str());
                r.append("' not found.");
                r
            },
            EmitError::UnresolvedGeneric => "Generic type was not resolved".to_owned(),
            EmitError::Template { message } => message.clone(),
            EmitError::RecursionLimit => "Constructor nesting is too deep".to_owned(),
        }
    }
}

/// Appends one placeholder pair, extending the rendered data mapping.
pub(crate) fn push_placeholder(data: &mut Vec<(String, String)>, key: String, value: String)
    ensures
        crate::ext::pairs_map(named_strings_view(final(data)@)) == crate::ext::pairs_map(
            named_strings_view(old(data)@),
        ).insert(key@, value@),
{
    let ghost k = key@;
    let ghost v = value@;
    data.push((key, value));
    proof {
        assert(data@.drop_last() =~= old(data)@);
        assert(named_strings_view(data@).drop_last() =~= named_strings_view(old(data)@));
        assert(named_strings_view(data@).last() == (k, v));
        assert(crate::ext::pairs_map(named_strings_view(data@)) =~= crate::ext::pairs_map(
            named_strings_view(old(data)@),
        ).insert(k, v));
    }
}

impl Constructor {
    fn emit_default(&self, od: &ObjectDescription, pack_man: &PackageManager, current_namespace:
        &Namespace) -> (r: Result<String, EmitError>)
        ensures
            match r {
                Result::Ok(s) => s@ == default_text(od@, current_namespace@),
                Result::Err(_) => false,
            },
    {
        let mut r = "let".to_owned();
        let m = self.emit_mutable(od.is_mutable);
        r.append(m.as_str());
        r.append(" ");
        let fqn = self.emit_fully_qualified_name(&od.name, current_namespace, false);
        r.append(fqn.as_str());
        r.append(":");
        r.append(od.type_path.as_str());
        r.append(od.type_parameter_part.as_str());
        r.append(" = Default::default();");
        Result::Ok(r)
    }

    fn emit_new_from_json(&self, od: &ObjectDescription, current_namespace: &Namespace) -> (r:
        Result<String, EmitError>)
        ensures
            match r {
                Result::Ok(s) => s@ == from_json_text(od@, current_namespace@),
                Result::Err(_) => false,
            },
    {
        let fqn = self.emit_fully_qualified_name(&od.name, current_namespace, false);
        let mut r = "let".to_owned();
        let m = self.emit_mutable(od.is_mutable);
        r.append(m.as_str());
        r.append(" ");
        r.append(fqn.as_str());
        r.append(": ");
        r.append(od.type_path.as_str());
        r.append(od.type_parameter_part.as_str());
        r.append(" = serde_json::from_value(data");
        let path = self.emit_json_path(current_namespace, od);
        r.append(path.as_str());
        r.append(".clone()).expect(\"Could not create '");
        r.append(fqn.as_str());
        r.append("' from Json.\");");
        Result::Ok(r)
    }

    fn emit_constructor_from_code(
        &self,
        od: &ObjectDescription,
        current_namespace: &Namespace,
        code_template: &String,
        type_parameters: &Vec<(String, String)>,
    ) -> (r: Result<String, EmitError>)
        ensures
            ({
                let rendered = crate::ext::guarded_render(
                    code_template@,
                    code_data_map(od@, current_namespace@, named_strings_view(type_parameters@)),
                );
                match r {
                    Result::Ok(s) => rendered == Option::Some(s@),
                    Result::Err(e) => e@ == EmitErrorV::Template && rendered is None,
                }
            }),
    {
        let ghost tpsv = named_strings_view(type_parameters@);
        let ghost base = code_base_map(od@, current_namespace@);
        let mut data: Vec<(String, String)> = Vec::new();
        proof {
            assert(named_strings_view(data@) =~= Seq::<(Seq<char>, Seq<char>)>::empty());
        }
        let fqn = self.emit_fully_qualified_name(&od.name, current_namespace, false);
        push_placeholder(&mut data, "fully_qualified_name".to_owned(), fqn);
        push_placeholder(&mut data, "type_name".to_owned(), od.type_path.clone());
        push_placeholder(&mut data, "type_parameter_part".to_owned(), od.type_parameter_part.clone());
        let mu = self.emit_mutable(od.is_mutable);
        push_placeholder(&mut data, "mutable".to_owned(), mu);
        proof {
            assert(crate::ext::pairs_map(named_strings_view(data@)) =~= base);
        }
        let mut i: usize = 0;
        proof {
            assert(tpsv.take(0) =~= Seq::<(Seq<char>, Seq<char>)>::empty());
        }
        while i < type_parameters.len()
            invariant
                i <= type_parameters@.len(),
                tpsv == named_strings_view(type_parameters@),
                tpsv.len() == type_parameters@.len(),
                base == code_base_map(od@, current_namespace@),
                crate::ext::pairs_map(named_strings_view(data@)) == insert_tp_placeholders(
                    base,
                    tpsv.take(i as int),
                ),
            decreases type_parameters@.len() - i,
        {
            let mut key = "type_parameter_".to_owned();
            key.append(type_parameters[i].0.as_str());
            let value = type_parameters[i].1.clone();
            push_placeholder(&mut data, key, value);
            proof {
                assert(tpsv.take(i + 1).drop_last() =~= tpsv.take(i as int));
                assert(tpsv.take(i + 1).last() == tpsv[i as int]);
                assert(tpsv[i as int] == (type_parameters@[i as int].0@, type_parameters@[i as int].1@));
            }
            i = i + 1;
        }
        proof {
            assert(tpsv.take(type_parameters@.len() as int) =~= tpsv);
        }
        match crate::ext::render_template_guarded(code_template.as_str(), &data) {
            Result::Ok(res) => Result::Ok(res),
            Result::Err(message) => Result::Err(EmitError::Template { message }),
        }
    }

    #[verifier::rlimit(100)]
    fn emit_new_with_args(
        &self,
        od: &ObjectDescription,
        type_parameters: &Vec<(String, String)>,
        function_name: &Option<String>,
        pack_man: &PackageManager,
        args: &Vec<Argument>,
        current_namespace: &Namespace,
        depth: u64,
    ) -> (r: Result<String, EmitError>)
        ensures
            ({
                let s = new_with_args_text(
                    od@,
                    named_strings_view(type_parameters@),
                    option_string_view(*function_name),
                    pack_man@,
                    arguments_view(args@),
                    current_namespace@,
                    depth as nat,
                );
                match r {
                    Result::Ok(code) => s == Result::<Seq<char>, EmitErrorV>::Ok(code@),
                    Result::Err(e) => s == Result::<Seq<char>, EmitErrorV>::Err(e@),
                }
            }),
        decreases depth, 2int, 0int,
    {
        let mut new_namespace = current_namespace.clone();
        new_namespace.add_part(od.name.as_str());
        let args_construction_code = match self.emit_args_construction_code(
            pack_man,
            args,
            &new_namespace,
            type_parameters,
            depth,
        ) {
            Result::Ok(code) => code,
            Result::Err(err) => {
                return Result::Err(err);
            },
        };
        let mut call = "let".to_owned();
        let m = self.emit_mutable(od.is_mutable);
        call.append(m.as_str());
        call.append(" ");
        let fqn = self.emit_fully_qualified_name(&od.name, current_namespace, false);
        call.append(fqn.as_str());
        call.append(" = ");
        call.append(od.type_path.as_str());
        call.append("::");
        if !od.type_parameter_part.as_str().is_empty() {
            call.append(od.type_parameter_part.as_str());
            call.append("::");
        }
        let f = self.emit_function_name(function_name);
        call.append(f.as_str());
        call.append("(");
        let call_args = self.emit_args(args, &new_namespace);
        call.append(call_args.as_str());
        call.append(");");
        proof {
            assert(call@ =~= call_stmt_text(
                od@,
                option_string_view(*function_name),
                arguments_view(args@),
                current_namespace@,
                current_namespace@.push(od@.name),
            ));
        }
        let mut r = args_construction_code;
        r.append("\n");
        r.append(call.as_str());
        proof {
            assert(r@ =~= join_with(
                arg_blocks_text(
                    pack_man@,
                    arguments_view(args@),
                    current_namespace@.push(od@.name),
                    named_strings_view(type_parameters@),
                    depth as nat,
                ) ->Ok_0,
                "\n"@,
            ) + "\n"@ + call@);
        }
        Result::Ok(r)
    }

    fn emit_args_construction_code(
        &self,
        pack_man: &PackageManager,
        args: &Vec<Argument>,
        current_namespace: &Namespace,
        type_parameters: &Vec<(String, String)>,
        depth: u64,
    ) -> (r: Result<String, EmitError>)
        ensures
            ({
                let s = arg_blocks_text(
                    pack_man@,
                    arguments_view(args@),
                    current_namespace@,
                    named_strings_view(type_parameters@),
                    depth as nat,
                );
                match r {
                    Result::Ok(code) => s matches Result::Ok(bs) && code@ == join_with(bs, "\n"@),
                    Result::Err(e) => s == Result::<Seq<Seq<char>>, EmitErrorV>::Err(e@),
                }
            }),
        decreases depth, 1int, 0int,
    {
        let ghost argsv = arguments_view(args@);
        let ghost tpsv = named_strings_view(type_parameters@);
        let ghost full = arg_blocks_text(pack_man@, argsv, current_namespace@, tpsv, depth as nat);
        let mut construction_blocks: Vec<String> = Vec::new();
        let mut i: usize = 0;
        proof {
            assert(argsv.skip(0) =~= argsv);
            assert(views_of(construction_blocks@) + arg_blocks_text(
                pack_man@,
                argsv.skip(0),
                current_namespace@,
                tpsv,
                depth as nat,
            ) ->Ok_0 =~= arg_blocks_text(
                pack_man@,
                argsv.skip(0),
                current_namespace@,
                tpsv,
                depth as nat,
            ) ->Ok_0);
        }
        while i < args.len()
            invariant
                i <= args@.len(),
                argsv == arguments_view(args@),
                tpsv == named_strings_view(type_parameters@),
                argsv.len() == args@.len(),
                full == arg_blocks_text(
                    pack_man@,
                    argsv,
                    current_namespace@,
                    tpsv,
                    depth as nat,
                ),
                ({
                    let tail = arg_blocks_text(
                        pack_man@,
                        argsv.skip(i as int),
                        current_namespace@,
                        tpsv,
                        depth as nat,
                    );
                    match tail {
                        Result::Ok(bs) => full == Result::<Seq<Seq<char>>, EmitErrorV>::Ok(
                            views_of(construction_blocks@) + bs,
                        ),
                        Result::Err(e) => full == Result::<Seq<Seq<char>>, EmitErrorV>::Err(e),
                    }
                }),
            decreases args@.len() - i,
        {
            proof {
                assert(argsv.skip(i as int)[0] == argsv[i as int]);
                assert(argsv[i as int] == args@[i as int]@);
                assert(argsv.skip(i as int).drop_first() =~= argsv.skip(i + 1));
            }
            let arg = &args[i];
            match &arg.construction {
                ArgumentConstruction::Constructor(constructor_name) => {
                    match self.emit_arg_construction_code(
                        arg,
                        constructor_name.clone(),
                        pack_man,
                        current_namespace,
                        type_parameters,
                        depth,
                    ) {
                        Result::Ok(code) => {
                            let ghost blocks0 = views_of(construction_blocks@);
                            construction_blocks.push(code);
                            proof {
                                assert(views_of(construction_blocks@) =~= blocks0.push(
                                    construction_blocks@.last()@,
                                ));
                                let tail1 = arg_blocks_text(
                                    pack_man@,
                                    argsv.skip(i + 1),
                                    current_namespace@,
                                    tpsv,
                                    depth as nat,
                                );
                                if tail1 is Ok {
                                    assert(views_of(construction_blocks@) + tail1->Ok_0 =~= blocks0
                                        + (seq![construction_blocks@.last()@] + tail1->Ok_0));
                                }
                            }
                        },
                        Result::Err(err) => {
                            return Result::Err(err);
                        },
                    }
                },
                ArgumentConstruction::ExistingObject => {},
            }
            i = i + 1;
        }
        proof {
            assert(argsv.skip(args@.len() as int) =~= Seq::<ArgumentV>::empty());
            assert(views_of(construction_blocks@) + Seq::<Seq<char>>::empty() =~= views_of(
                construction_blocks@,
            ));
        }
        Result::Ok(crate::text::join_strings(&construction_blocks, "\n"))
    }

    fn emit_arg_construction_code(
        &self,
        arg: &Argument,
        arg_constructor_name: String,
        pack_man: &PackageManager,
        current_namespace: &Namespace,
        type_parameters: &Vec<(String, String)>,
        depth: u64,
    ) -> (r: Result<String, EmitError>)
        ensures
            ({
                let s = arg_construction_text(
                    arg@,
                    arg_constructor_name@,
                    pack_man@,
                    current_namespace@,
                    named_strings_view(type_parameters@),
                    depth as nat,
                );
                match r {
                    Result::Ok(code) => s == Result::<Seq<char>, EmitErrorV>::Ok(code@),
                    Result::Err(e) => s == Result::<Seq<char>, EmitErrorV>::Err(e@),
                }
            }),
        decreases depth, 0int, 0int,
    {
        match &arg.arg_type {
            TypeDescription::Type { name, type_parameters: arg_type_parameters } => {
                match pack_man.get_type(name.as_str()) {
                    Option::Some(type_desc) => {
                        match find_constructor(
                            &type_desc.constructors,
                            arg_constructor_name.as_str(),
                        ) {
                            Option::Some(arg_constructor) => {
                                if depth == 0 {
                                    return Result::Err(EmitError::RecursionLimit);
                                }
                                let tp_part = match self.emit_arg_type_parameters_part(
                                    arg_type_parameters,
                                    type_parameters,
                                ) {
                                    Result::Ok(part) => part,
                                    Result::Err(e) => {
                                        return Result::Err(e);
                                    },
                                };
                                let object_desc = arg.into_object_description(name, &tp_part);
                                arg_constructor.emit_code_template_at(
                                    &object_desc,
                                    type_parameters,
                                    pack_man,
                                    current_namespace,
                                    depth - 1,
                                )
                            },
                            Option::None => Result::Err(
                                EmitError::UnknownConstructor {
                                    constructor: arg_constructor_name,
                                    type_path: name.clone(),
                                },
                            ),
                        }
                    },
                    Option::None => Result::Err(EmitError::UnknownType { name: name.clone() }),
                }
            },
            TypeDescription::Generic { name, type_parameters: arg_type_parameters } => {
                match find_string(type_parameters, name.as_str()) {
                    Option::Some(resolved_path) => {
                        match pack_man.get_type(resolved_path.as_str()) {
                            Option::Some(type_desc) => {
                                match find_constructor(
                                    &type_desc.constructors,
                                    arg_constructor_name.as_str(),
                                ) {
                                    Option::Some(arg_constructor) => {
                                        if depth == 0 {
                                            return Result::Err(EmitError::RecursionLimit);
                                        }
                                        let tp_part = match self.emit_arg_type_parameters_part(
                                            arg_type_parameters,
                                            type_parameters,
                                        ) {
                                            Result::Ok(part) => part,
                                            Result::Err(e) => {
                                                return Result::Err(e);
                                            },
                                        };
                                        let object_desc = arg.into_object_description(
                                            resolved_path,
                                            &tp_part,
                                        );
                                        arg_constructor.emit_code_template_at(
                                            &object_desc,
                                            type_parameters,
                                            pack_man,
                                            current_namespace,
                                            depth - 1,
                                        )
                                    },
                                    Option::None => Result::Err(
                                        EmitError::UnknownConstructor {
                                            constructor: arg_constructor_name,
                                            type_path: name.clone(),
                                        },
                                    ),
                                }
                            },
                            Option::None => Result::Err(
                                EmitError::UnknownType { name: resolved_path.clone() },
                            ),
                        }
                    },
                    Option::None => Result::Err(EmitError::UnresolvedGeneric),
                }
            },
        }
    }

    fn emit_code_template_at(
        &self,
        obj_desc: &ObjectDescription,
        type_parameters: &Vec<(String, String)>,
        pack_man: &PackageManager,
        namespace: &Namespace,
        depth: u64,
    ) -> (r: Result<String, EmitError>)
        ensures
            ({
                let s = ctor_text(
                    self@,
                    obj_desc@,
                    named_strings_view(type_parameters@),
                    pack_man@,
                    namespace@,
                    depth as nat,
                );
                match r {
                    Result::Ok(code) => s == Result::<Seq<char>, EmitErrorV>::Ok(code@),
                    Result::Err(e) => s == Result::<Seq<char>, EmitErrorV>::Err(e@),
                }
            }),
        decreases depth, 3int, 0int,
    {
        if depth == 0 {
            return Result::Err(EmitError::RecursionLimit);
        }
        match self {
            Constructor::New { function_name } => {
                let no_args: Vec<Argument> = Vec::new();
                proof {
                    assert(arguments_view(no_args@) =~= Seq::<ArgumentV>::empty());
                }
                self.emit_new_with_args(
                    obj_desc,
                    type_parameters,
                    function_name,
                    pack_man,
                    &no_args,
                    namespace,
                    depth,
                )
            },
            Constructor::NewWithObserver { function_name } => {
                let mut synthetic: Vec<Argument> = Vec::new();
                synthetic.push(Argument::new_change_observer_arg());
                proof {
                    assert(arguments_view(synthetic@) =~= seq![observer_arg_v()]);
                }
                self.emit_new_with_args(
                    obj_desc,
                    type_parameters,
                    function_name,
                    pack_man,
                    &synthetic,
                    namespace,
                    depth,
                )
            },
            Constructor::NewWithObserverAndContext { function_name } => {
                let mut synthetic: Vec<Argument> = Vec::new();
                synthetic.push(Argument::new_change_observer_arg());
                synthetic.push(Argument::new_context_arg());
                proof {
                    assert(arguments_view(synthetic@) =~= seq![observer_arg_v(), context_arg_v()]);
                }
                self.emit_new_with_args(
                    obj_desc,
                    type_parameters,
                    function_name,
                    pack_man,
                    &synthetic,
                    namespace,
                    depth,
                )
            },
            Constructor::NewWithArbitraryArgs { function_name, arguments } => self
                .emit_new_with_args(
                obj_desc,
                type_parameters,
                function_name,
                pack_man,
                arguments,
                namespace,
                depth,
            ),
            Constructor::FromJson => self.emit_new_from_json(obj_desc, namespace),
            Constructor::FromDefault => self.emit_default(obj_desc, pack_man, namespace),
            Constructor::FromCode { code_template } => self.emit_constructor_from_code(
                obj_desc,
                namespace,
                code_template,
                type_parameters,
            ),
        }
    }

    /// Emits the full construction of one object from this constructor
    /// recipe: the statements for every recursively constructed argument,
    /// then the statement binding the object itself.
    pub fn emit_code_template(
        &self,
        obj_desc: &ObjectDescription,
        type_parameters: &Vec<(String, String)>,
        pack_man: &PackageManager,
        namespace: &Namespace,
    ) -> (r: Result<String, EmitError>)
        ensures
            ({
                let s = ctor_text(
                    self@,
                    obj_desc@,
                    named_strings_view(type_parameters@),
                    pack_man@,
                    namespace@,
                    EMIT_RECURSION_LIMIT as nat,
                );
                match r {
                    Result::Ok(code) => s == Result::<Seq<char>, EmitErrorV>::Ok(code@),
                    Result::Err(e) => s == Result::<Seq<char>, EmitErrorV>::Err(e@),
                }
            }),
    {
        self.emit_code_template_at(
            obj_desc,
            type_parameters,
            pack_man,
            namespace,
            EMIT_RECURSION_LIMIT,
        )
    }
}

/// Looking a fresh key up after appending it finds exactly the appended
/// value.
pub proof fn lemma_assoc_get_push_fresh<V>(entries: Seq<(Seq<char>, V)>, key: Seq<char>, v: V)
    requires
        !assoc_has(entries, key),
    ensures
        assoc_get(entries.push((key, v)), key) == Option::Some(v),
    decreases entries.len(),
{
    if entries.len() == 0 {
        assert(entries.push((key, v))[0] == (key, v));
    } else {
        assert(entries[0].0 != key);
        lemma_assoc_get_push_fresh(entries.drop_first(), key, v);
        assert(entries.push((key, v)).drop_first() =~= entries.drop_first().push((key, v)));
    }
}

/// In an emitted constructor call, an `ExistingObject` argument stands under
/// its own, unmangled name — it refers to an ambient local — while every
/// other argument stands under its namespace-mangled name.
pub proof fn lemma_arg_call_names(a: ArgumentV, ns: Seq<Seq<char>>)
    ensures
        a.construction is ExistingObject ==> arg_call_text(a, ns) == passing_prefix(a.passing)
            + a.name + passing_postfix(a.passing),
        !(a.construction is ExistingObject) && ns.len() > 0 ==> arg_call_text(a, ns)
            == passing_prefix(a.passing) + (namespace_text(ns) + "_"@ + a.name) + passing_postfix(
            a.passing,
        ),
{
}

/// The two synthetic arguments of the observer and context constructor
/// kinds are `ExistingObject` arguments with `Clone` passing, bound to the
/// ambient locals `change_observer` and `context`.
pub proof fn lemma_synthetic_args_are_ambient()
    ensures
        observer_arg_v().construction is ExistingObject,
        observer_arg_v().passing is Clone,
        observer_arg_v().name == "change_observer"@,
        context_arg_v().construction is ExistingObject,
        context_arg_v().passing is Clone,
        context_arg_v().name == "context"@,
{
}

// ---------------------------------------------------------------------------
// Deep clones, each preserving the view.
// ---------------------------------------------------------------------------
fn clone_tds(ps: &Vec<TypeDescription>) -> (r: Vec<TypeDescription>)
    ensures
        type_descs_view(r@) == type_descs_view(ps@),
    decreases ps,
{
    let mut r: Vec<TypeDescription> = Vec::new();
    let mut i: usize = 0;
    while i < ps.len()
        invariant
            i <= ps@.len(),
            r@.len() == i,
            forall|j: int| 0 <= j < i ==> r@[j]@ == ps@[j]@,
        decreases ps@.len() - i,
    {
        r.push(ps[i].clone());
        i = i + 1;
    }
    proof {
        lemma_type_descs_view_index(r@);
        lemma_type_descs_view_index(ps@);
        assert(type_descs_view(r@) =~= type_descs_view(ps@));
    }
    r
}

fn clone_opt_tds(o: &Option<Vec<TypeDescription>>) -> (r: Option<Vec<TypeDescription>>)
    ensures
        opt_tds_view(r) == opt_tds_view(*o),
    decreases o,
{
    match o {
        Option::Some(ps) => Option::Some(clone_tds(ps)),
        Option::None => Option::None,
    }
}

impl Clone for TypeDescription {
    fn clone(&self) -> (r: Self)
        ensures
            r@ == self@,
        decreases self,
    {
        match self {
            TypeDescription::Type { name, type_parameters } => TypeDescription::Type {
                name: name.clone(),
                type_parameters: clone_opt_tds(type_parameters),
            },
            TypeDescription::Generic { name, type_parameters } => TypeDescription::Generic {
                name: name.clone(),
                type_parameters: clone_opt_tds(type_parameters),
            },
        }
    }
}

fn clone_opt_name(o: &Option<String>) -> (r: Option<String>)
    ensures
        option_string_view(r) == option_string_view(*o),
{
    match o {
        Option::Some(s) => Option::Some(s.clone()),
        Option::None => Option::None,
    }
}

impl Clone for ArgumentConstruction {
    fn clone(&self) -> (r: Self)
        ensures
            r@ == self@,
    {
        match self {
            ArgumentConstruction::Constructor(name) => ArgumentConstruction::Constructor(
                name.clone(),
            ),
            ArgumentConstruction::ExistingObject => ArgumentConstruction::ExistingObject,
        }
    }
}

impl Clone for Argument {
    fn clone(&self) -> (r: Self)
        ensures
            r@ == self@,
    {
        Argument {
            arg_type: self.arg_type.clone(),
            name: self.name.clone(),
            passing: self.passing,
            construction: self.construction.clone(),
        }
    }
}

fn clone_args(args: &Vec<Argument>) -> (r: Vec<Argument>)
    ensures
        arguments_view(r@) == arguments_view(args@),
{
    let mut r: Vec<Argument> = Vec::new();
    let mut i: usize = 0;
    while i < args.len()
        invariant
            i <= args@.len(),
            r@.len() == i,
            forall|j: int| 0 <= j < i ==> r@[j]@ == args@[j]@,
        decreases args@.len() - i,
    {
        r.push(args[i].clone());
        i = i + 1;
    }
    proof {
        assert(arguments_view(r@) =~= arguments_view(args@));
    }
    r
}

impl Clone for Constructor {
    fn clone(&self) -> (r: Self)
        ensures
            r@ == self@,
    {
        match self {
            Constructor::New { function_name } => Constructor::New {
                function_name: clone_opt_name(function_name),
            },
            Constructor::NewWithObserver { function_name } => Constructor::NewWithObserver {
                function_name: clone_opt_name(function_name),
            },
            Constructor::NewWithObserverAndContext {
                function_name,
            } => Constructor::NewWithObserverAndContext {
                function_name: clone_opt_name(function_name),
            },
            Constructor::NewWithArbitraryArgs {
                function_name,
                arguments,
            } => Constructor::NewWithArbitraryArgs {
                function_name: clone_opt_name(function_name),
                arguments: clone_args(arguments),
            },
            Constructor::FromJson => Constructor::FromJson,
            Constructor::FromDefault => Constructor::FromDefault,
            Constructor::FromCode { code_template } => Constructor::FromCode {
                code_template: code_template.clone(),
            },
        }
    }
}

impl Clone for Input {
    fn clone(&self) -> (r: Self)
        ensures
            r@ == self@,
    {
        Input { input_type: self.input_type.clone() }
    }
}

impl Clone for Output {
    fn clone(&self) -> (r: Self)
        ensures
            r@ == self@,
    {
        Output { output_type: self.output_type.clone() }
    }
}

fn clone_named_inputs(xs: &Vec<(String, Input)>) -> (r: Vec<(String, Input)>)
    ensures
        named_inputs_view(r@) == named_inputs_view(xs@),
{
    let mut r: Vec<(String, Input)> = Vec::new();
    let mut i: usize = 0;
    while i < xs.len()
        invariant
            i <= xs@.len(),
            r@.len() == i,
            forall|j: int| 0 <= j < i ==> r@[j].0@ == xs@[j].0@ && r@[j].1@ == xs@[j].1@,
        decreases xs@.len() - i,
    {
        r.push((xs[i].0.clone(), xs[i].1.clone()));
        i = i + 1;
    }
    proof {
        assert(named_inputs_view(r@) =~= named_inputs_view(xs@));
    }
    r
}

fn clone_named_outputs(xs: &Vec<(String, Output)>) -> (r: Vec<(String, Output)>)
    ensures
        named_outputs_view(r@) == named_outputs_view(xs@),
{
    let mut r: Vec<(String, Output)> = Vec::new();
    let mut i: usize = 0;
    while i < xs.len()
        invariant
            i <= xs@.len(),
            r@.len() == i,
            forall|j: int| 0 <= j < i ==> r@[j].0@ == xs@[j].0@ && r@[j].1@ == xs@[j].1@,
        decreases xs@.len() - i,
    {
        r.push((xs[i].0.clone(), xs[i].1.clone()));
        i = i + 1;
    }
    proof {
        assert(named_outputs_view(r@) =~= named_outputs_view(xs@));
    }
    r
}

fn clone_named_constructors(xs: &Vec<(String, Constructor)>) -> (r: Vec<(String, Constructor)>)
    ensures
        named_constructors_view(r@) == named_constructors_view(xs@),
{
    let mut r: Vec<(String, Constructor)> = Vec::new();
    let mut i: usize = 0;
    while i < xs.len()
        invariant
            i <= xs@.len(),
            r@.len() == i,
            forall|j: int| 0 <= j < i ==> r@[j].0@ == xs@[j].0@ && r@[j].1@ == xs@[j].1@,
        decreases xs@.len() - i,
    {
        r.push((xs[i].0.clone(), xs[i].1.clone()));
        i = i + 1;
    }
    proof {
        assert(named_constructors_view(r@) =~= named_constructors_view(xs@));
    }
    r
}

fn clone_strings(xs: &Vec<String>) -> (r: Vec<String>)
    ensures
        views_of(r@) == views_of(xs@),
{
    let mut r: Vec<String> = Vec::new();
    let mut i: usize = 0;
    while i < xs.len()
        invariant
            i <= xs@.len(),
            r@.len() == i,
            forall|j: int| 0 <= j < i ==> r@[j]@ == xs@[j]@,
        decreases xs@.len() - i,
    {
        r.push(xs[i].clone());
        i = i + 1;
    }
    proof {
        assert(views_of(r@) =~= views_of(xs@));
    }
    r
}

impl Clone for Type {
    fn clone(&self) -> (r: Self)
        ensures
            r@ == self@,
    {
        Type {
            inputs: match &self.inputs {
                Option::Some(xs) => Option::Some(clone_named_inputs(xs)),
                Option::None => Option::None,
            },
            outputs: match &self.outputs {
                Option::Some(xs) => Option::Some(clone_named_outputs(xs)),
                Option::None => Option::None,
            },
            type_parameters: match &self.type_parameters {
                Option::Some(xs) => Option::Some(clone_strings(xs)),
                Option::None => Option::None,
            },
            constructors: clone_named_constructors(&self.constructors),
        }
    }
}

fn clone_named_types(xs: &Vec<(String, Type)>) -> (r: Vec<(String, Type)>)
    ensures
        named_types_view(r@) == named_types_view(xs@),
{
    let mut r: Vec<(String, Type)> = Vec::new();
    let mut i: usize = 0;
    while i < xs.len()
        invariant
            i <= xs@.len(),
            r@.len() == i,
            forall|j: int| 0 <= j < i ==> r@[j].0@ == xs@[j].0@ && r@[j].1@ == xs@[j].1@,
        decreases xs@.len() - i,
    {
        r.push((xs[i].0.clone(), xs[i].1.clone()));
        i = i + 1;
    }
    proof {
        assert(named_types_view(r@) =~= named_types_view(xs@));
    }
    r
}

fn clone_named_modules(xs: &Vec<(String, Module)>) -> (r: Vec<(String, Module)>)
    ensures
        named_modules_view(r@) == named_modules_view(xs@),
    decreases xs,
{
    let mut r: Vec<(String, Module)> = Vec::new();
    let mut i: usize = 0;
    while i < xs.len()
        invariant
            i <= xs@.len(),
            r@.len() == i,
            forall|j: int| 0 <= j < i ==> r@[j].0@ == xs@[j].0@ && r@[j].1@ == xs@[j].1@,
        decreases xs@.len() - i,
    {
        r.push((xs[i].0.clone(), xs[i].1.clone()));
        i = i + 1;
    }
    proof {
        lemma_named_modules_view_index(r@);
        lemma_named_modules_view_index(xs@);
        assert(named_modules_view(r@) =~= named_modules_view(xs@));
    }
    r
}

impl Clone for Module {
    fn clone(&self) -> (r: Self)
        ensures
            r@ == self@,
        decreases self,
    {
        Module {
            types: clone_named_types(&self.types),
            modules: clone_named_modules(&self.modules),
        }
    }
}

impl Clone for Crate {
    fn clone(&self) -> (r: Self)
        ensures
            r@ == self@,
    {
        Crate { types: clone_named_types(&self.types), modules: clone_named_modules(&self.modules) }
    }
}

pub(crate) fn clone_named_crates(xs: &Vec<(String, Crate)>) -> (r: Vec<(String, Crate)>)
    ensures
        named_crates_view(r@) == named_crates_view(xs@),
{
    let mut r: Vec<(String, Crate)> = Vec::new();
    let mut i: usize = 0;
    while i < xs.len()
        invariant
            i <= xs@.len(),
            r@.len() == i,
            forall|j: int| 0 <= j < i ==> r@[j].0@ == xs@[j].0@ && r@[j].1@ == xs@[j].1@,
        decreases xs@.len() - i,
    {
        r.push((xs[i].0.clone(), xs[i].1.clone()));
        i = i + 1;
    }
    proof {
        assert(named_crates_view(r@) =~= named_crates_view(xs@));
    }
    r
}

impl Clone for Package {
    fn clone(&self) -> (r: Self)
        ensures
            r@ == self@,
    {
        Package {
            name: self.name.clone(),
            version: self.version.clone(),
            crates: clone_named_crates(&self.crates),
        }
    }
}

impl Clone for Namespace {
    fn clone(&self) -> (r: Self)
        ensures
            r@ == self@,
    {
        let mut parts: Vec<String> = Vec::new();
        let mut i: usize = 0;
        while i < self.parts.len()
            invariant
                i <= self.parts@.len(),
                parts@.len() == i,
                forall|j: int| 0 <= j < i ==> parts@[j]@ == self.parts@[j]@,
            decreases self.parts@.len() - i,
        {
            parts.push(self.parts[i].clone());
            i = i + 1;
        }
        proof {
            assert(views_of(parts@) =~= views_of(self.parts@));
        }
        Namespace { parts }
    }
}

} // verus!
