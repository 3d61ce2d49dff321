//! The flow graph model and the emitter that turns a graph plus the type
//! catalogue into the body of the artifact's initialization function: ambient
//! locals first, then one construction block per node, one `connect` call per
//! connection, the graph assembly with increasing ids, and the context
//! return.

use vstd::prelude::*;

use crate::package::assoc_get;
use crate::package::ctor_text;
use crate::package::named_strings_view;
use crate::package::EmitError;
use crate::package::EmitErrorV;
use crate::package::Namespace;
use crate::package::ObjectDescription;
use crate::package::ObjectDescriptionV;
use crate::package::PackageV;
use crate::package::EMIT_RECURSION_LIMIT;
use crate::package_manager::get_type_spec;
use crate::package_manager::PackageManager;
use crate::text::dec_str;
use crate::text::literal_escape;
use crate::text::u64_to_dec;
use crate::text::views_of;

verus! {

pub ghost struct ConnectionModelV {
    pub from_node: Seq<char>,
    pub to_node: Seq<char>,
    pub to_input: Seq<char>,
    pub from_output: Seq<char>,
}

pub ghost struct NodeModelV {
    pub node_type: Seq<char>,
    pub type_parameters: Seq<(Seq<char>, Seq<char>)>,
    pub constructor: Seq<char>,
}

pub ghost struct FlowModelV {
    pub nodes: Seq<(Seq<char>, NodeModelV)>,
    pub connections: Seq<ConnectionModelV>,
    pub data: Seq<char>,
}

#[derive(Debug, PartialEq)]
pub struct ConnectionModel {
    pub from_node: String,
    pub to_node: String,
    pub to_input: String,
    pub from_output: String,
}

impl View for ConnectionModel {
    type V = ConnectionModelV;

    open spec fn view(&self) -> ConnectionModelV {
        ConnectionModelV {
            from_node: self.from_node@,
            to_node: self.to_node@,
            to_input: self.to_input@,
            from_output: self.from_output@,
        }
    }
}

impl Clone for ConnectionModel {
    fn clone(&self) -> (r: Self)
        ensures
            r@ == self@,
    {
        ConnectionModel {
            from_node: self.from_node.clone(),
            to_node: self.to_node.clone(),
            to_input: self.to_input.clone(),
            from_output: self.from_output.clone(),
        }
    }
}

#[derive(Debug, PartialEq)]
pub struct NodeModel {
    pub node_type: String,
    pub type_parameters: Vec<(String, String)>,
    pub constructor: String,
}

impl View for NodeModel {
    type V = NodeModelV;

    open spec fn view(&self) -> NodeModelV {
        NodeModelV {
            node_type: self.node_type@,
            type_parameters: named_strings_view(self.type_parameters@),
            constructor: self.constructor@,
        }
    }
}

impl Clone for NodeModel {
    fn clone(&self) -> (r: Self)
        ensures
            r@ == self@,
    {
        let mut type_parameters: Vec<(String, String)> = Vec::new();
        let mut i: usize = 0;
        while i < self.type_parameters.len()
            invariant
                i <= self.type_parameters@.len(),
                type_parameters@.len() == i,
                forall|j: int|
                    0 <= j < i ==> (type_parameters@[j].0@, type_parameters@[j].1@) == (
                        self.type_parameters@[j].0@,
                        self.type_parameters@[j].1@,
                    ),
            decreases self.type_parameters@.len() - i,
        {
            type_parameters.push(
                (self.type_parameters[i].0.clone(), self.type_parameters[i].1.clone()),
            );
            i = i + 1;
        }
        let r = NodeModel {
            node_type: self.node_type.clone(),
            type_parameters,
            constructor: self.constructor.clone(),
        };
        proof {
            assert(named_strings_view(r.type_parameters@) =~= named_strings_view(
                self.type_parameters@,
            ));
        }
        r
    }
}

#[derive(Debug, PartialEq)]
pub struct FlowModel {
    pub nodes: Vec<(String, NodeModel)>,
    pub connections: Vec<ConnectionModel>,
    /// The graph's literal data, as serialized JSON text.
    pub data: String,
}

pub open spec fn named_nodes_view(xs: Seq<(String, NodeModel)>) -> Seq<(Seq<char>, NodeModelV)> {
    xs.map_values(|p: (String, NodeModel)| (p.0@, p.1@))
}

pub open spec fn connections_view(xs: Seq<ConnectionModel>) -> Seq<ConnectionModelV> {
    xs.map_values(|c: ConnectionModel| c@)
}

impl View for FlowModel {
    type V = FlowModelV;

    open spec fn view(&self) -> FlowModelV {
        FlowModelV {
            nodes: named_nodes_view(self.nodes@),
            connections: connections_view(self.connections@),
            data: self.data@,
        }
    }
}

impl Clone for FlowModel {
    fn clone(&self) -> (r: Self)
        ensures
            r@ == self@,
    {
        let mut nodes: Vec<(String, NodeModel)> = Vec::new();
        let mut i: usize = 0;
        while i < self.nodes.len()
            invariant
                i <= self.nodes@.len(),
                nodes@.len() == i,
                forall|j: int|
                    0 <= j < i ==> nodes@[j].0@ == self.nodes@[j].0@ && nodes@[j].1@
                        == self.nodes@[j].1@,
            decreases self.nodes@.len() - i,
        {
            nodes.push((self.nodes[i].0.clone(), self.nodes[i].1.clone()));
            i = i + 1;
        }
        let mut connections: Vec<ConnectionModel> = Vec::new();
        let mut k: usize = 0;
        while k < self.connections.len()
            invariant
                k <= self.connections@.len(),
                connections@.len() == k,
                forall|j: int| 0 <= j < k ==> connections@[j]@ == self.connections@[j]@,
            decreases self.connections@.len() - k,
        {
            connections.push(self.connections[k].clone());
            k = k + 1;
        }
        let r = FlowModel { nodes, connections, data: self.data.clone() };
        proof {
            assert(named_nodes_view(r.nodes@) =~= named_nodes_view(self.nodes@));
            assert(connections_view(r.connections@) =~= connections_view(self.connections@));
        }
        r
    }
}

// ---------------------------------------------------------------------------
// Emission specs.
// ---------------------------------------------------------------------------
/// The ambient locals every initialization body starts with; `ExistingObject`
/// arguments bind to these names, and `data` carries the graph's literal JSON.
pub open spec fn std_locals_text(data: Seq<char>) -> Seq<char> {
    "let co = ChangeObserver::new();\n"@ + "let change_observer = Some(&co);\n"@
        + "let context = Arc::new(Mutex::new(Context::new()));\n"@ + "let data_str = \""@
        + literal_escape(data) + "\";\n"@
        + "let data: Value = serde_json::from_str(&data_str).expect(\"Failed to parse flow project data.\");\n"@
}

/// One wiring call per connection.
pub open spec fn connection_text(c: ConnectionModelV) -> Seq<char> {
    "connect("@ + c.from_node + "."@ + c.from_output + ".clone(), "@ + c.to_node + "."@
        + c.to_input + ".clone());\n"@
}

pub open spec fn connections_text(cs: Seq<ConnectionModelV>) -> Seq<char>
    decreases cs.len(),
{
    if cs.len() == 0 {
        Seq::empty()
    } else {
        connections_text(cs.drop_last()) + connection_text(cs.last())
    }
}

/// The items of a node's `<…>` part: each resolved parameter's name, its own
/// parameter list expanded from the catalogue, and a trailing comma. An
/// unresolved symbol is a terminal error; the walk stops silently only once
/// `fuel` runs out.
pub open spec fn node_tp_items(
    names: Seq<Seq<char>>,
    resolved: Seq<(Seq<char>, Seq<char>)>,
    pkgs: Seq<PackageV>,
    fuel: nat,
) -> Result<Seq<char>, EmitErrorV>
    decreases fuel, names.len(), 0nat,
{
    if fuel == 0 {
        Result::Ok(Seq::empty())
    } else if names.len() == 0 {
        Result::Ok(Seq::empty())
    } else {
        match assoc_get(resolved, names[0]) {
            Option::Some(tn) => {
                let inner = match get_type_spec(pkgs, tn) {
                    Option::Some(t) => match t.type_parameters {
                        Option::Some(tps) => node_tp_group(tps, resolved, pkgs, (fuel - 1) as nat),
                        Option::None => Result::<Seq<char>, EmitErrorV>::Ok(Seq::empty()),
                    },
                    Option::None => Result::<Seq<char>, EmitErrorV>::Ok(Seq::empty()),
                };
                match inner {
                    Result::Ok(g) => match node_tp_items(names.drop_first(), resolved, pkgs, fuel) {
                        Result::Ok(rest) => Result::Ok(tn + g + ","@ + rest),
                        Result::Err(e) => Result::Err(e),
                    },
                    Result::Err(e) => Result::Err(e),
                }
            },
            Option::None => Result::Err(EmitErrorV::UnresolvedGeneric),
        }
    }
}

/// A `<…>` group over a list of parameter symbols; nothing for an empty list
/// or an exhausted walk.
pub open spec fn node_tp_group(
    names: Seq<Seq<char>>,
    resolved: Seq<(Seq<char>, Seq<char>)>,
    pkgs: Seq<PackageV>,
    fuel: nat,
) -> Result<Seq<char>, EmitErrorV>
    decreases fuel, names.len(), 1nat,
{
    if fuel == 0 {
        Result::Ok(Seq::empty())
    } else if names.len() == 0 {
        Result::Ok(Seq::empty())
    } else {
        match node_tp_items(names, resolved, pkgs, fuel) {
            Result::Ok(items) => Result::Ok("<"@ + items + ">"@),
            Result::Err(e) => Result::Err(e),
        }
    }
}

/// A node's type-parameter part, from its type's declared parameter symbols
/// and the node's resolution mapping; a declared symbol the mapping does not
/// resolve is an error.
pub open spec fn node_tp_part_text(node: NodeModelV, pkgs: Seq<PackageV>, fuel: nat) -> Result<
    Seq<char>,
    EmitErrorV,
> {
    match get_type_spec(pkgs, node.node_type) {
        Option::Some(t) => match t.type_parameters {
            Option::Some(tp) => node_tp_group(tp, node.type_parameters, pkgs, fuel),
            Option::None => Result::Ok(Seq::empty()),
        },
        Option::None => Result::Ok(Seq::empty()),
    }
}

/// The object description under which a node is constructed: top level, not
/// mutable, its type-parameter part expanded.
pub open spec fn node_object_v(
    name: Seq<char>,
    node: NodeModelV,
    pkgs: Seq<PackageV>,
    fuel: nat,
) -> Result<ObjectDescriptionV, EmitErrorV> {
    match node_tp_part_text(node, pkgs, fuel) {
        Result::Ok(part) => Result::Ok(
            ObjectDescriptionV {
                type_path: node.node_type,
                type_parameter_part: part,
                name: name,
                is_mutable: false,
            },
        ),
        Result::Err(e) => Result::Err(e),
    }
}

/// One node's construction code: its type and named constructor resolved
/// against the catalogue, emitted under the empty namespace.
pub open spec fn node_text(name: Seq<char>, node: NodeModelV, pkgs: Seq<PackageV>, fuel: nat) -> Result<
    Seq<char>,
    EmitErrorV,
> {
    match get_type_spec(pkgs, node.node_type) {
        Option::Some(t) => match assoc_get(t.constructors, node.constructor) {
            Option::Some(c) => match node_object_v(name, node, pkgs, fuel) {
                Result::Ok(od) => ctor_text(c, od, node.type_parameters, pkgs, Seq::empty(), fuel),
                Result::Err(e) => Result::Err(e),
            },
            Option::None => Result::Err(
                EmitErrorV::UnknownConstructor {
                    constructor: node.constructor,
                    type_path: node.node_type,
                },
            ),
        },
        Option::None => Result::Err(EmitErrorV::UnknownType { name: node.node_type }),
    }
}

/// All node constructions in graph order, each block on its own lines.
pub open spec fn nodes_text(
    nodes: Seq<(Seq<char>, NodeModelV)>,
    pkgs: Seq<PackageV>,
    fuel: nat,
) -> Result<Seq<char>, EmitErrorV>
    decreases nodes.len(),
{
    if nodes.len() == 0 {
        Result::Ok(Seq::empty())
    } else {
        match node_text(nodes[0].0, nodes[0].1, pkgs, fuel) {
            Result::Ok(code) => match nodes_text(nodes.drop_first(), pkgs, fuel) {
                Result::Ok(rest) => Result::Ok(code + "\n"@ + rest),
                Result::Err(e) => Result::Err(e),
            },
            Result::Err(e) => Result::Err(e),
        }
    }
}

/// The line registering one node on the graph under an increasing id.
pub open spec fn add_node_line(name: Seq<char>, node: NodeModelV, id: nat) -> Seq<char> {
    "flow.add_node_with_id_and_desc("@ + name + ", "@ + dec_str(id)
        + "u128, NodeDescription {name: \""@ + name + "\".into(), description: \""@ + name
        + "\".into(), kind: \""@ + node.node_type + "\".into()});\n"@
}

pub open spec fn add_node_lines(
    nodes: Seq<(Seq<char>, NodeModelV)>,
    next_id: nat,
) -> Seq<char>
    decreases nodes.len(),
{
    if nodes.len() == 0 {
        Seq::empty()
    } else {
        add_node_line(nodes[0].0, nodes[0].1, next_id) + add_node_lines(
            nodes.drop_first(),
            next_id + 1,
        )
    }
}

/// The graph assembly: an empty graph, then one registration per node with
/// ids counting up from zero.
pub open spec fn flow_section_text(nodes: Seq<(Seq<char>, NodeModelV)>) -> Seq<char> {
    "let mut flow = Flow::new_empty();\n"@ + add_node_lines(nodes, 0)
}

/// The tail building the execution context from observer and graph.
pub open spec fn context_text() -> Seq<char> {
    "let executor = StandardExecutor::new(co);\n"@ + "ExecutionContext::new(executor, flow)\n"@
}

/// The whole initialization body, in the fixed order: ambient locals, node
/// constructions, connections, graph assembly, context return.
pub open spec fn init_body_text(flow: FlowModelV, pkgs: Seq<PackageV>, fuel: nat) -> Result<
    Seq<char>,
    EmitErrorV,
> {
    match nodes_text(flow.nodes, pkgs, fuel) {
        Result::Ok(nodes_code) => Result::Ok(
            std_locals_text(flow.data) + nodes_code + connections_text(flow.connections)
                + flow_section_text(flow.nodes) + context_text(),
        ),
        Result::Err(e) => Result::Err(e),
    }
}

/// Emission is deterministic: the emitted body is a function of the graph's
/// and the catalogue's contents alone, so re-emitting the same graph against
/// the same catalogue yields textually identical output.
pub proof fn lemma_emission_deterministic(
    f1: FlowModelV,
    f2: FlowModelV,
    pkgs1: Seq<PackageV>,
    pkgs2: Seq<PackageV>,
    fuel: nat,
)
    requires
        f1 == f2,
        pkgs1 == pkgs2,
    ensures
        init_body_text(f1, pkgs1, fuel) == init_body_text(f2, pkgs2, fuel),
{
}

/// Every connection contributes exactly one `connect` call to the wiring
/// section, in connection order: the section splits around the one line of
/// the connection at any position.
pub proof fn lemma_one_connect_per_connection(cs: Seq<ConnectionModelV>, i: int)
    requires
        0 <= i < cs.len(),
    ensures
        connections_text(cs) == connections_text(cs.take(i)) + connection_text(cs[i])
            + connections_text(cs.skip(i + 1)),
    decreases cs.len(),
{
    if i == cs.len() - 1 {
        assert(cs.take(i) =~= cs.drop_last());
        assert(cs.skip(i + 1) =~= Seq::<ConnectionModelV>::empty());
        assert(connections_text(cs.take(i)) + connection_text(cs[i]) + connections_text(
            cs.skip(i + 1),
        ) =~= connections_text(cs.drop_last()) + connection_text(cs.last()));
    } else {
        lemma_one_connect_per_connection(cs.drop_last(), i);
        assert(cs.drop_last().take(i) =~= cs.take(i));
        assert(cs.drop_last()[i] == cs[i]);
        assert(cs.drop_last().skip(i + 1) =~= cs.skip(i + 1).drop_last());
        assert(cs.skip(i + 1).last() == cs.last());
        assert(cs.skip(i + 1).len() > 0);
        assert(connections_text(cs.skip(i + 1)) == connections_text(cs.skip(i + 1).drop_last())
            + connection_text(cs.last()));
        assert(connections_text(cs.take(i)) + connection_text(cs[i]) + connections_text(
            cs.skip(i + 1),
        ) =~= (connections_text(cs.take(i)) + connection_text(cs[i]) + connections_text(
            cs.skip(i + 1).drop_last(),
        )) + connection_text(cs.last()));
    }
}

// ---------------------------------------------------------------------------
// The emitter.
// ---------------------------------------------------------------------------
pub struct StandardCodeEmitter {}

impl StandardCodeEmitter {
    /// The object description a node is constructed under.
    /// The object description a node is constructed under, or the error met
    /// while expanding its type-parameter part.
    pub fn node_model_to_object(
        &self,
        node_name: &String,
        node: &NodeModel,
        pm: &PackageManager,
    ) -> (r: Result<ObjectDescription, EmitError>)
        ensures
            ({
                let s = node_object_v(node_name@, node@, pm@, EMIT_RECURSION_LIMIT as nat);
                match r {
                    Result::Ok(od) => s == Result::<ObjectDescriptionV, EmitErrorV>::Ok(od@),
                    Result::Err(e) => s == Result::<ObjectDescriptionV, EmitErrorV>::Err(e@),
                }
            }),
    {
        let part = match self.emit_type_parameter_part(node, pm) {
            Result::Ok(part) => part,
            Result::Err(e) => {
                return Result::Err(e);
            },
        };
        Result::Ok(
            ObjectDescription {
                name: node_name.clone(),
                type_path: node.node_type.clone(),
                type_parameter_part: part,
                is_mutable: false,
            },
        )
    }

    /// A node's `<…>` part, or the first unresolved symbol met.
    pub fn emit_type_parameter_part(&self, node: &NodeModel, pm: &PackageManager) -> (r: Result<
        String,
        EmitError,
    >)
        ensures
            ({
                let s = node_tp_part_text(node@, pm@, EMIT_RECURSION_LIMIT as nat);
                match r {
                    Result::Ok(part) => s == Result::<Seq<char>, EmitErrorV>::Ok(part@),
                    Result::Err(e) => s == Result::<Seq<char>, EmitErrorV>::Err(e@),
                }
            }),
    {
        let mut tp_part = String::new();
        match pm.get_type(node.node_type.as_str()) {
            Option::Some(t) => {
                match &t.type_parameters {
                    Option::Some(tp) => {
                        match self.emit_type_parameter_part_rec(
                            tp,
                            &node.type_parameters,
                            pm,
                            &mut tp_part,
                            EMIT_RECURSION_LIMIT,
                        ) {
                            Result::Ok(_) => {},
                            Result::Err(e) => {
                                return Result::Err(e);
                            },
                        }
                    },
                    Option::None => {},
                }
            },
            Option::None => {},
        }
        Result::Ok(tp_part)
    }

    /// Walks the declared parameter symbols, substituting each from the
    /// node's mapping and expanding the substituted type's own parameters; a
    /// symbol the mapping does not resolve is an error.
    fn emit_type_parameter_part_rec(
        &self,
        type_parameters: &Vec<String>,
        resolved_type_parameters: &Vec<(String, String)>,
        pm: &PackageManager,
        tp_part: &mut String,
        depth: u64,
    ) -> (r: Result<(), EmitError>)
        ensures
            ({
                let s = node_tp_group(
                    views_of(type_parameters@),
                    named_strings_view(resolved_type_parameters@),
                    pm@,
                    depth as nat,
                );
                match r {
                    Result::Ok(_) => s matches Result::Ok(g) && final(tp_part)@ == old(tp_part)@
                        + g,
                    Result::Err(e) => s == Result::<Seq<char>, EmitErrorV>::Err(e@),
                }
            }),
        decreases depth,
    {
        let ghost names = views_of(type_parameters@);
        let ghost resolved = named_strings_view(resolved_type_parameters@);
        let ghost base = tp_part@;
        if depth == 0 {
            proof {
                assert(tp_part@ =~= base + node_tp_group(names, resolved, pm@, 0)->Ok_0);
            }
            return Result::Ok(());
        }
        if type_parameters.len() == 0 {
            proof {
                assert(tp_part@ =~= base + node_tp_group(names, resolved, pm@, depth as nat)->Ok_0);
            }
            return Result::Ok(());
        }
        let ghost full = node_tp_items(names, resolved, pm@, depth as nat);
        let ghost mut acc: Seq<char> = Seq::empty();
        proof {
            assert(names.skip(0) =~= names);
        }
        tp_part.append("<");
        let mut i: usize = 0;
        while i < type_parameters.len()
            invariant
                i <= type_parameters@.len(),
                depth >= 1,
                names == views_of(type_parameters@),
                resolved == named_strings_view(resolved_type_parameters@),
                full == node_tp_items(names, resolved, pm@, depth as nat),
                names.len() == type_parameters@.len(),
                forall|j: int| 0 <= j < names.len() ==> names[j] == type_parameters@[j]@,
                tp_part@ == base + "<"@ + acc,
                ({
                    let tail = node_tp_items(names.skip(i as int), resolved, pm@, depth as nat);
                    match tail {
                        Result::Ok(rest) => full == Result::<Seq<char>, EmitErrorV>::Ok(
                            acc + rest,
                        ),
                        Result::Err(e) => full == Result::<Seq<char>, EmitErrorV>::Err(e),
                    }
                }),
            decreases type_parameters@.len() - i,
        {
            proof {
                assert(names.skip(i as int)[0] == names[i as int]);
                assert(names.skip(i as int).drop_first() =~= names.skip(i + 1));
            }
            let resolved_path = match crate::package::find_string(
                resolved_type_parameters,
                type_parameters[i].as_str(),
            ) {
                Option::Some(resolved_path) => resolved_path,
                Option::None => {
                    return Result::Err(EmitError::UnresolvedGeneric);
                },
            };
            tp_part.append(resolved_path.as_str());
            let ghost mut inner: Seq<char> = Seq::empty();
            match pm.get_type(resolved_path.as_str()) {
                Option::Some(t) => {
                    match &t.type_parameters {
                        Option::Some(tps) => {
                            match self.emit_type_parameter_part_rec(
                                tps,
                                resolved_type_parameters,
                                pm,
                                tp_part,
                                depth - 1,
                            ) {
                                Result::Ok(_) => {
                                    proof {
                                        inner = node_tp_group(
                                            views_of(tps@),
                                            resolved,
                                            pm@,
                                            (depth - 1) as nat,
                                        )->Ok_0;
                                    }
                                },
                                Result::Err(e) => {
                                    return Result::Err(e);
                                },
                            }
                        },
                        Option::None => {},
                    }
                },
                Option::None => {},
            }
            tp_part.append(",");
            proof {
                let acc0 = acc;
                acc = acc + resolved_path@ + inner + ","@;
                assert(tp_part@ =~= base + "<"@ + acc);
                let tail1 = node_tp_items(names.skip(i + 1), resolved, pm@, depth as nat);
                if tail1 is Ok {
                    assert(acc + tail1->Ok_0 =~= acc0 + (resolved_path@ + inner + ","@
                        + tail1->Ok_0));
                }
            }
            i = i + 1;
        }
        proof {
            assert(names.skip(type_parameters@.len() as int) =~= Seq::<Seq<char>>::empty());
            assert(acc + Seq::<char>::empty() =~= acc);
        }
        tp_part.append(">");
        proof {
            assert(tp_part@ =~= base + ("<"@ + full->Ok_0 + ">"@));
        }
        Result::Ok(())
    }

    /// One node's construction code.
    /// One node's construction code.
    pub fn emit_node(&self, node_name: &str, node: &NodeModel, pm: &PackageManager) -> (r: Result<
        String,
        EmitError,
    >)
        ensures
            ({
                let s = node_text(node_name@, node@, pm@, EMIT_RECURSION_LIMIT as nat);
                match r {
                    Result::Ok(code) => s == Result::<Seq<char>, EmitErrorV>::Ok(code@),
                    Result::Err(e) => s == Result::<Seq<char>, EmitErrorV>::Err(e@),
                }
            }),
    {
        match pm.get_type(node.node_type.as_str()) {
            Option::Some(node_type) => {
                match crate::package::find_constructor(
                    &node_type.constructors,
                    node.constructor.as_str(),
                ) {
                    Option::Some(constructor) => {
                        let obj = match self.node_model_to_object(
                            &node_name.to_owned(),
                            node,
                            pm,
                        ) {
                            Result::Ok(obj) => obj,
                            Result::Err(e) => {
                                return Result::Err(e);
                            },
                        };
                        let ns = Namespace::new();
                        constructor.emit_code_template(&obj, &node.type_parameters, pm, &ns)
                    },
                    Option::None => Result::Err(
                        EmitError::UnknownConstructor {
                            constructor: node.constructor.clone(),
                            type_path: node.node_type.clone(),
                        },
                    ),
                }
            },
            Option::None => Result::Err(
                EmitError::UnknownType { name: node.node_type.clone() },
            ),
        }
    }

    /// Appends every node's construction, each block followed by a newline;
    /// on an error the buffer is left as it was.
    pub fn emit_nodes(&self, flow: &FlowModel, tokens: &mut String, pm: &PackageManager) -> (r:
        Result<(), EmitError>)
        ensures
            ({
                let s = nodes_text(flow@.nodes, pm@, EMIT_RECURSION_LIMIT as nat);
                let kept = final(tokens)@;
                match r {
                    Result::Ok(_) => s matches Result::Ok(t) && kept == old(tokens)@ + t,
                    Result::Err(e) => s == Result::<Seq<char>, EmitErrorV>::Err(e@) && kept == old(
                        tokens,
                    )@,
                }
            }),
    {
        let ghost nodesv = flow@.nodes;
        let ghost full = nodes_text(nodesv, pm@, EMIT_RECURSION_LIMIT as nat);
        let mut acc = String::new();
        let mut i: usize = 0;
        proof {
            assert(nodesv.skip(0) =~= nodesv);
        }
        while i < flow.nodes.len()
            invariant
                i <= flow.nodes@.len(),
                nodesv == flow@.nodes,
                full == nodes_text(nodesv, pm@, EMIT_RECURSION_LIMIT as nat),
                nodesv.len() == flow.nodes@.len(),
                ({
                    let tail = nodes_text(
                        nodesv.skip(i as int),
                        pm@,
                        EMIT_RECURSION_LIMIT as nat,
                    );
                    match tail {
                        Result::Ok(t) => full == Result::<Seq<char>, EmitErrorV>::Ok(acc@ + t),
                        Result::Err(e) => full == Result::<Seq<char>, EmitErrorV>::Err(e),
                    }
                }),
            decreases flow.nodes@.len() - i,
        {
            proof {
                assert(nodesv.skip(i as int)[0] == nodesv[i as int]);
                assert(nodesv[i as int] == (flow.nodes@[i as int].0@, flow.nodes@[i as int].1@));
                assert(nodesv.skip(i as int).drop_first() =~= nodesv.skip(i + 1));
            }
            let entry = &flow.nodes[i];
            let ghost acc0 = acc@;
            match self.emit_node(entry.0.as_str(), &entry.1, pm) {
                Result::Ok(code) => {
                    acc.append(code.as_str());
                    acc.append("\n");
                    proof {
                        let tail1 = nodes_text(
                            nodesv.skip(i + 1),
                            pm@,
                            EMIT_RECURSION_LIMIT as nat,
                        );
                        if tail1 is Ok {
                            assert(acc@ + tail1->Ok_0 =~= acc0 + (code@ + "\n"@ + tail1->Ok_0));
                        }
                    }
                },
                Result::Err(e) => {
                    return Result::Err(e);
                },
            }
            i = i + 1;
        }
        proof {
            assert(nodesv.skip(flow.nodes@.len() as int) =~= Seq::<(Seq<char>, NodeModelV)>::empty());
            assert(acc@ + Seq::<char>::empty() =~= acc@);
        }
        tokens.append(acc.as_str());
        Result::Ok(())
    }

    /// One wiring call.
    pub fn emit_node_connection(&self, connection: &ConnectionModel) -> (r: String)
        ensures
            r@ == connection_text(connection@),
    {
        let mut r = "connect(".to_owned();
        r.append(connection.from_node.as_str());
        r.append(".");
        r.append(connection.from_output.as_str());
        r.append(".clone(), ");
        r.append(connection.to_node.as_str());
        r.append(".");
        r.append(connection.to_input.as_str());
        r.append(".clone());\n");
        r
    }

    /// Appends all wiring calls in connection order.
    pub fn emit_node_connections(&self, flow: &FlowModel, tokens: &mut String)
        ensures
            final(tokens)@ == old(tokens)@ + connections_text(flow@.connections),
    {
        let ghost base = tokens@;
        let ghost csv = flow@.connections;
        let mut i: usize = 0;
        proof {
            assert(connections_text(csv.take(0)) =~= Seq::<char>::empty());
            assert(tokens@ =~= base + connections_text(csv.take(0)));
        }
        while i < flow.connections.len()
            invariant
                i <= flow.connections@.len(),
                csv == flow@.connections,
                csv.len() == flow.connections@.len(),
                forall|j: int| 0 <= j < csv.len() ==> csv[j] == flow.connections@[j]@,
                tokens@ == base + connections_text(csv.take(i as int)),
            decreases flow.connections@.len() - i,
        {
            let line = self.emit_node_connection(&flow.connections[i]);
            tokens.append(line.as_str());
            proof {
                assert(csv.take(i + 1).drop_last() =~= csv.take(i as int));
                assert(csv.take(i + 1).last() == csv[i as int]);
            }
            i = i + 1;
        }
        proof {
            assert(csv.take(flow.connections@.len() as int) =~= csv);
        }
    }

    /// Appends the ambient locals, embedding the graph's literal JSON as an
    /// escaped source literal.
    pub fn emit_std_locals(&self, tokens: &mut String, flow: &FlowModel)
        ensures
            final(tokens)@ == old(tokens)@ + std_locals_text(flow@.data),
    {
        tokens.append("let co = ChangeObserver::new();\n");
        tokens.append("let change_observer = Some(&co);\n");
        tokens.append("let context = Arc::new(Mutex::new(Context::new()));\n");
        tokens.append("let data_str = \"");
        let escaped = crate::text::escape_for_literal(flow.data.as_str());
        tokens.append(escaped.as_str());
        tokens.append("\";\n");
        tokens.append(
            "let data: Value = serde_json::from_str(&data_str).expect(\"Failed to parse flow project data.\");\n",
        );
        proof {
            assert(tokens@ =~= old(tokens)@ + std_locals_text(flow@.data));
        }
    }

    /// Appends the graph assembly: an empty graph, then one registration per
    /// node under ids counting up from zero.
    pub fn emit_flow(&self, flow: &FlowModel, tokens: &mut String)
        ensures
            final(tokens)@ == old(tokens)@ + flow_section_text(flow@.nodes),
    {
        let ghost base = tokens@;
        let ghost nodesv = flow@.nodes;
        tokens.append("let mut flow = Flow::new_empty();\n");
        let mut id: u64 = 0;
        let mut i: usize = 0;
        proof {
            assert(nodesv.skip(0) =~= nodesv);
        }
        while i < flow.nodes.len()
            invariant
                i <= flow.nodes@.len(),
                id == i,
                nodesv == flow@.nodes,
                nodesv.len() == flow.nodes@.len(),
                base + flow_section_text(nodesv) == tokens@ + add_node_lines(
                    nodesv.skip(i as int),
                    id as nat,
                ),
            decreases flow.nodes@.len() - i,
        {
            proof {
                assert(nodesv.skip(i as int)[0] == nodesv[i as int]);
                assert(nodesv[i as int] == (flow.nodes@[i as int].0@, flow.nodes@[i as int].1@));
                assert(nodesv.skip(i as int).drop_first() =~= nodesv.skip(i + 1));
            }
            let entry = &flow.nodes[i];
            tokens.append("flow.add_node_with_id_and_desc(");
            tokens.append(entry.0.as_str());
            tokens.append(", ");
            let id_text = u64_to_dec(id);
            tokens.append(id_text.as_str());
            tokens.append("u128, NodeDescription {name: \"");
            tokens.append(entry.0.as_str());
            tokens.append("\".into(), description: \"");
            tokens.append(entry.0.as_str());
            tokens.append("\".into(), kind: \"");
            tokens.append(entry.1.node_type.as_str());
            tokens.append("\".into()});\n");
            id = id + 1;
            i = i + 1;
        }
        proof {
            assert(nodesv.skip(flow.nodes@.len() as int) =~= Seq::<(Seq<char>, NodeModelV)>::empty());
            assert(tokens@ + Seq::<char>::empty() =~= tokens@);
        }
    }

    /// Appends the context-building tail.
    pub fn emit_context_creation(&self, tokens: &mut String)
        ensures
            final(tokens)@ == old(tokens)@ + context_text(),
    {
        tokens.append("let executor = StandardExecutor::new(co);\n");
        tokens.append("ExecutionContext::new(executor, flow)\n");
        proof {
            assert(tokens@ =~= old(tokens)@ + context_text());
        }
    }

    /// The whole initialization body for a flow graph, or the first emission
    /// error.
    pub fn emit_init_function_body(&self, flow: &FlowModel, pm: &PackageManager) -> (r: Result<
        String,
        EmitError,
    >)
        ensures
            ({
                let s = init_body_text(flow@, pm@, EMIT_RECURSION_LIMIT as nat);
                match r {
                    Result::Ok(code) => s == Result::<Seq<char>, EmitErrorV>::Ok(code@),
                    Result::Err(e) => s == Result::<Seq<char>, EmitErrorV>::Err(e@),
                }
            }),
    {
        let mut body = String::new();
        self.emit_std_locals(&mut body, flow);
        match self.emit_nodes(flow, &mut body, pm) {
            Result::Ok(_) => {},
            Result::Err(e) => {
                return Result::Err(e);
            },
        }
        self.emit_node_connections(flow, &mut body);
        self.emit_flow(flow, &mut body);
        self.emit_context_creation(&mut body);
        proof {
            assert(body@ =~= init_body_text(flow@, pm@, EMIT_RECURSION_LIMIT as nat)->Ok_0);
        }
        Result::Ok(body)
    }
}

} // verus!
