use flowrs_build::flow_model::{ConnectionModel, FlowModel, NodeModel, StandardCodeEmitter};
use flowrs_build::package::{
    Argument, ArgumentConstruction, ArgumentPassing, Constructor, Crate, Module, Namespace,
    ObjectDescription, Package, Type, TypeDescription,
};
use flowrs_build::package_manager::PackageManager;

fn s(x: &str) -> String {
    x.to_owned()
}

fn generic_ref(name: &str) -> TypeDescription {
    TypeDescription::Generic { name: s(name), type_parameters: None }
}

fn concrete_ref(name: &str) -> TypeDescription {
    TypeDescription::Type { name: s(name), type_parameters: None }
}

fn json_arg(name: &str, arg_type: TypeDescription) -> Argument {
    Argument {
        arg_type,
        name: s(name),
        passing: ArgumentPassing::Move,
        construction: ArgumentConstruction::Constructor(s("Json")),
    }
}

fn observer_arg() -> Argument {
    Argument {
        arg_type: concrete_ref("()"),
        name: s("change_observer"),
        passing: ArgumentPassing::Clone,
        construction: ArgumentConstruction::ExistingObject,
    }
}

fn type_with_constructors(
    type_parameters: Option<Vec<String>>,
    constructors: Vec<(String, Constructor)>,
) -> Type {
    Type { inputs: None, outputs: None, type_parameters, constructors }
}

/// The catalogue the flow-emission tests run against: a `flowrs_std` crate
/// with debug, value and timer node types.
fn flowrs_std_package() -> Package {
    let debug_node = type_with_constructors(
        Some(vec![s("I")]),
        vec![(s("New"), Constructor::NewWithObserver { function_name: None })],
    );
    let value_type = type_with_constructors(None, vec![(s("Json"), Constructor::FromJson)]);
    let value_node = type_with_constructors(
        Some(vec![s("I")]),
        vec![(
            s("New"),
            Constructor::NewWithArbitraryArgs {
                function_name: None,
                arguments: vec![json_arg("value", generic_ref("I")), observer_arg()],
            },
        )],
    );
    let timer_config = type_with_constructors(None, vec![(s("Json"), Constructor::FromJson)]);
    let selected_timer = type_with_constructors(
        Some(vec![s("U")]),
        vec![(s("New"), Constructor::New { function_name: None })],
    );
    let timer_node = type_with_constructors(
        Some(vec![s("T"), s("U")]),
        vec![(
            s("New"),
            Constructor::NewWithArbitraryArgs {
                function_name: None,
                arguments: vec![
                    Argument {
                        arg_type: TypeDescription::Generic {
                            name: s("T"),
                            type_parameters: Some(vec![generic_ref("U")]),
                        },
                        name: s("timer"),
                        passing: ArgumentPassing::Move,
                        construction: ArgumentConstruction::Constructor(s("New")),
                    },
                    observer_arg(),
                ],
            },
        )],
    );
    let debug_module = Module { types: vec![(s("DebugNode"), debug_node)], modules: vec![] };
    let value_module = Module {
        types: vec![(s("ValueType"), value_type), (s("ValueNode"), value_node)],
        modules: vec![],
    };
    let timer_module = Module {
        types: vec![
            (s("TimerNodeConfig"), timer_config),
            (s("SelectedTimer"), selected_timer),
            (s("TimerNode"), timer_node),
        ],
        modules: vec![],
    };
    let nodes_module = Module {
        types: vec![],
        modules: vec![
            (s("debug"), debug_module),
            (s("value"), value_module),
            (s("timer"), timer_module),
        ],
    };
    Package {
        name: s("flowrs-std"),
        version: s("1.0.0"),
        crates: vec![(
            s("flowrs_std"),
            Crate { types: vec![], modules: vec![(s("nodes"), nodes_module)] },
        )],
    }
}

fn flow_for_tests() -> FlowModel {
    FlowModel {
        nodes: vec![
            (
                s("debug_node"),
                NodeModel {
                    node_type: s("flowrs_std::nodes::debug::DebugNode"),
                    type_parameters: vec![(s("I"), s("i32"))],
                    constructor: s("New"),
                },
            ),
            (
                s("timer_config_node"),
                NodeModel {
                    node_type: s("flowrs_std::nodes::value::ValueNode"),
                    type_parameters: vec![(s("I"), s("flowrs_std::nodes::timer::TimerNodeConfig"))],
                    constructor: s("New"),
                },
            ),
            (
                s("timer_token_node"),
                NodeModel {
                    node_type: s("flowrs_std::nodes::value::ValueNode"),
                    type_parameters: vec![(s("I"), s("i32"))],
                    constructor: s("New"),
                },
            ),
            (
                s("timer_node"),
                NodeModel {
                    node_type: s("flowrs_std::nodes::timer::TimerNode"),
                    type_parameters: vec![
                        (s("T"), s("flowrs_std::nodes::timer::SelectedTimer")),
                        (s("U"), s("i32")),
                    ],
                    constructor: s("New"),
                },
            ),
        ],
        connections: vec![
            ConnectionModel {
                from_node: s("timer_config_node"),
                from_output: s("output"),
                to_node: s("timer_node"),
                to_input: s("config_input"),
            },
            ConnectionModel {
                from_node: s("timer_token_node"),
                from_output: s("output"),
                to_node: s("timer_node"),
                to_input: s("token_input"),
            },
            ConnectionModel {
                from_node: s("timer_node"),
                from_output: s("token_output"),
                to_node: s("debug_node"),
                to_input: s("input"),
            },
        ],
        data: s("{\"timer_config_node\":{\"value\":{\"duration\":{\"secs\":1,\"nanos\":0}}},\"timer_token_node\":{\"value\":42}}"),
    }
}

#[test]
fn test_from_code() {
    let my_type = type_with_constructors(
        Some(vec![s("U"), s("T")]),
        vec![
            (s("New"), Constructor::NewWithObserver { function_name: None }),
            (
                s("FromCode"),
                Constructor::FromCode {
                    code_template: s("let {{fully_qualified_name}}:{{type_parameter_U}} = 5;"),
                },
            ),
        ],
    );
    let package_1 = Package {
        name: s("my_package"),
        version: s("1.0.0"),
        crates: vec![(s("my_crate"), Crate { types: vec![(s("MyType"), my_type)], modules: vec![] })],
    };
    let mut pm_1 = PackageManager::new();
    pm_1.add_package(package_1);

    let t_1 = pm_1.get_type("my_crate::MyType").expect("msg");
    let c_1 = flowrs_build::package::find_constructor(&t_1.constructors, "FromCode").expect("");
    let type_params_1 = vec![(s("U"), s("i32")), (s("T"), s("i32"))];
    let ns_1 = Namespace::new();

    let obj_1 = ObjectDescription {
        type_path: s("my_crate::MyType"),
        type_parameter_part: s(""),
        name: s("value"),
        is_mutable: false,
    };

    assert_eq!(
        "let value:i32 = 5;",
        c_1.emit_code_template(&obj_1, &type_params_1, &pm_1, &ns_1).expect("")
    );
}

#[test]
fn test_arbitrary_args() {
    let mut pm_1 = PackageManager::new();
    pm_1.add_package(flowrs_std_package());

    let t_1 = pm_1.get_type("flowrs_std::nodes::value::ValueNode").expect("msg");
    let c_1 = flowrs_build::package::find_constructor(&t_1.constructors, "New").expect("");
    let type_params_1 = vec![(s("I"), s("i32"))];
    let ns_1 = Namespace::new();

    let obj_1 = ObjectDescription {
        type_path: s("flowrs_std::nodes::value::ValueNode"),
        type_parameter_part: s(""),
        name: s("value_node"),
        is_mutable: false,
    };

    let code = c_1.emit_code_template(&obj_1, &type_params_1, &pm_1, &ns_1).expect("");

    println!("{}", code);

    assert_eq!(
        "let value_node_value: i32 = serde_json::from_value(data[\"value_node\"][\"value\"].clone()).expect(\"Could not create \'value_node_value\' from Json.\");\nlet value_node = flowrs_std::nodes::value::ValueNode::new(value_node_value, change_observer.clone());",
        code
    );
}

#[test]
fn test_arbitrary_args_with_vec() {
    let value_node = type_with_constructors(
        Some(vec![s("I")]),
        vec![(
            s("NewWithValue"),
            Constructor::NewWithArbitraryArgs {
                function_name: None,
                arguments: vec![
                    json_arg(
                        "v",
                        TypeDescription::Type {
                            name: s("std::vec::Vec"),
                            type_parameters: Some(vec![generic_ref("I")]),
                        },
                    ),
                    observer_arg(),
                ],
            },
        )],
    );
    let value_type = type_with_constructors(None, vec![(s("Json"), Constructor::FromJson)]);
    let value_module = Module {
        types: vec![(s("ValueType"), value_type), (s("ValueNode"), value_node)],
        modules: vec![],
    };
    let nodes_module = Module { types: vec![], modules: vec![(s("value"), value_module)] };
    let package_1 = Package {
        name: s("flowrs-std"),
        version: s("1.0.0"),
        crates: vec![(
            s("flowrs_std"),
            Crate { types: vec![], modules: vec![(s("nodes"), nodes_module)] },
        )],
    };

    let vec_type = type_with_constructors(
        Some(vec![s("I")]),
        vec![(s("Json"), Constructor::FromJson)],
    );
    let simple_node = type_with_constructors(Some(vec![s("I"), s("O")]), vec![]);
    let vec_module = Module {
        types: vec![(s("Vec"), vec_type), (s("SimpleNode"), simple_node)],
        modules: vec![],
    };
    let package_2 = Package {
        name: s("std"),
        version: s("1.0.0"),
        crates: vec![(s("std"), Crate { types: vec![], modules: vec![(s("vec"), vec_module)] })],
    };

    let mut pm = PackageManager::new();
    pm.add_package(package_1);
    pm.add_package(package_2);

    let t = pm.get_type("flowrs_std::nodes::value::ValueNode").expect("msg");
    let c = flowrs_build::package::find_constructor(&t.constructors, "NewWithValue").expect("");
    let type_params = vec![(s("I"), s("i32"))];
    let ns = Namespace::new();

    let obj_1 = ObjectDescription {
        type_path: s("flowrs_std::nodes::value::ValueNode"),
        type_parameter_part: s(""),
        name: s("value_node"),
        is_mutable: false,
    };

    let code = c.emit_code_template(&obj_1, &type_params, &pm, &ns).expect("");

    println!("{}", code);

    assert_eq!(
        "let value_node_v: std::vec::Vec<i32,> = serde_json::from_value(data[\"value_node\"][\"v\"].clone()).expect(\"Could not create \'value_node_v\' from Json.\");\nlet value_node = flowrs_std::nodes::value::ValueNode::new(value_node_v, change_observer.clone());",
        code
    );
}

#[test]
fn test() {
    let flow_model = flow_for_tests();

    let mut pm = PackageManager::new();
    pm.add_package(flowrs_std_package());

    let rce = StandardCodeEmitter {};
    println!("{}", rce.emit_init_function_body(&flow_model, &pm).expect("flow code wrong."));
}

#[test]
fn minimal_emission_order() {
    let mut pm = PackageManager::new();
    pm.add_package(flowrs_std_package());
    let flow = FlowModel {
        nodes: vec![(
            s("debug_node"),
            NodeModel {
                node_type: s("flowrs_std::nodes::debug::DebugNode"),
                type_parameters: vec![(s("I"), s("i32"))],
                constructor: s("New"),
            },
        )],
        connections: vec![],
        data: s("{}"),
    };
    let rce = StandardCodeEmitter {};
    let body = rce.emit_init_function_body(&flow, &pm).expect("emission failed");

    let locals = body.find("let co = ChangeObserver::new();").expect("observer local missing");
    let change = body
        .find("let change_observer = Some(&co);")
        .expect("change observer local missing");
    let context = body
        .find("let context = Arc::new(Mutex::new(Context::new()));")
        .expect("context local missing");
    let data = body.find("let data_str = \"{}\";").expect("data local missing");
    let node = body
        .find(
            "let debug_node = flowrs_std::nodes::debug::DebugNode::<i32,>::new(change_observer.clone());",
        )
        .expect("node construction missing");
    let flow_new = body.find("let mut flow = Flow::new_empty();").expect("graph missing");
    let add = body
        .find("flow.add_node_with_id_and_desc(debug_node, 0u128, NodeDescription {name: \"debug_node\".into(), description: \"debug_node\".into(), kind: \"flowrs_std::nodes::debug::DebugNode\".into()});")
        .expect("node registration missing");
    let tail = body
        .find("ExecutionContext::new(executor, flow)")
        .expect("context return missing");
    assert!(locals < change && change < context && context < data);
    assert!(data < node && node < flow_new && flow_new < add && add < tail);
}

#[test]
fn generic_propagation() {
    let mut pm = PackageManager::new();
    pm.add_package(flowrs_std_package());
    let node = NodeModel {
        node_type: s("flowrs_std::nodes::timer::TimerNode"),
        type_parameters: vec![
            (s("T"), s("flowrs_std::nodes::timer::SelectedTimer")),
            (s("U"), s("i32")),
        ],
        constructor: s("New"),
    };
    let rce = StandardCodeEmitter {};
    let code = rce.emit_node("timer_node", &node, &pm).expect("emission failed");
    assert_eq!(
        "\nlet timer_node_timer = flowrs_std::nodes::timer::SelectedTimer::<i32,>::new();\nlet timer_node = flowrs_std::nodes::timer::TimerNode::<flowrs_std::nodes::timer::SelectedTimer<i32,>,i32,>::new(timer_node_timer, change_observer.clone());",
        code
    );
}

#[test]
fn from_json_path_under_namespace() {
    let pm = PackageManager::new();
    let mut ns = Namespace::new();
    ns.add_part("timer_config_node");
    let obj = ObjectDescription {
        type_path: s("flowrs_std::nodes::timer::TimerNodeConfig"),
        type_parameter_part: s(""),
        name: s("value"),
        is_mutable: false,
    };
    let code = Constructor::FromJson.emit_code_template(&obj, &vec![], &pm, &ns).expect("");
    assert_eq!(
        "let timer_config_node_value: flowrs_std::nodes::timer::TimerNodeConfig = serde_json::from_value(data[\"timer_config_node\"][\"value\"].clone()).expect(\"Could not create 'timer_config_node_value' from Json.\");",
        code
    );
}

#[test]
fn unknown_type_is_reported() {
    let pm = PackageManager::new();
    let rce = StandardCodeEmitter {};
    let node = NodeModel {
        node_type: s("nowhere::Missing"),
        type_parameters: vec![],
        constructor: s("New"),
    };
    let err = rce.emit_node("n", &node, &pm).expect_err("should fail");
    assert_eq!("Type description for 'nowhere::Missing' not found.", err.message());
}

#[test]
fn unknown_constructor_is_reported() {
    let mut pm = PackageManager::new();
    pm.add_package(flowrs_std_package());
    let rce = StandardCodeEmitter {};
    let node = NodeModel {
        node_type: s("flowrs_std::nodes::debug::DebugNode"),
        type_parameters: vec![(s("I"), s("i32"))],
        constructor: s("NoSuchConstructor"),
    };
    let err = rce.emit_node("n", &node, &pm).expect_err("should fail");
    assert_eq!(
        "Constructor 'NoSuchConstructor' for type 'flowrs_std::nodes::debug::DebugNode' not found.",
        err.message()
    );
}

#[test]
fn unresolved_generic_is_reported() {
    let mut pm = PackageManager::new();
    pm.add_package(flowrs_std_package());
    let rce = StandardCodeEmitter {};
    // The value node's argument has the generic type I, left unresolved here.
    let node = NodeModel {
        node_type: s("flowrs_std::nodes::value::ValueNode"),
        type_parameters: vec![],
        constructor: s("New"),
    };
    let err = rce.emit_node("n", &node, &pm).expect_err("should fail");
    assert_eq!("Generic type was not resolved", err.message());
}

#[test]
fn unresolved_nested_generic_is_reported() {
    // The argument's type is concrete, but its parameter list carries a
    // generic symbol the node does not resolve: emission must fail.
    let value_node = type_with_constructors(
        Some(vec![s("I")]),
        vec![(
            s("New"),
            Constructor::NewWithArbitraryArgs {
                function_name: None,
                arguments: vec![json_arg(
                    "v",
                    TypeDescription::Type {
                        name: s("std::vec::Vec"),
                        type_parameters: Some(vec![generic_ref("I")]),
                    },
                )],
            },
        )],
    );
    let vec_type = type_with_constructors(
        Some(vec![s("I")]),
        vec![(s("Json"), Constructor::FromJson)],
    );
    let package = Package {
        name: s("p"),
        version: s("1.0.0"),
        crates: vec![(
            s("c"),
            Crate { types: vec![(s("ValueNode"), value_node)], modules: vec![] },
        )],
    };
    let std_package = Package {
        name: s("std"),
        version: s("1.0.0"),
        crates: vec![(
            s("std"),
            Crate {
                types: vec![],
                modules: vec![(
                    s("vec"),
                    Module { types: vec![(s("Vec"), vec_type)], modules: vec![] },
                )],
            },
        )],
    };
    let mut pm = PackageManager::new();
    pm.add_package(package);
    pm.add_package(std_package);
    let t = pm.get_type("c::ValueNode").expect("type");
    let c = flowrs_build::package::find_constructor(&t.constructors, "New").expect("ctor");
    let obj = ObjectDescription {
        type_path: s("c::ValueNode"),
        type_parameter_part: s(""),
        name: s("n"),
        is_mutable: false,
    };
    // No entry for the symbol I: the walk over Vec<I> must abort.
    let err = c.emit_code_template(&obj, &vec![], &pm, &Namespace::new()).expect_err("must fail");
    assert_eq!("Generic type was not resolved", err.message());
}

#[test]
fn partial_templates_are_refused() {
    let my_type = type_with_constructors(
        None,
        vec![(s("Code"), Constructor::FromCode { code_template: s("{{> helper}}") })],
    );
    let package = Package {
        name: s("p"),
        version: s("1.0.0"),
        crates: vec![(s("c"), Crate { types: vec![(s("T"), my_type)], modules: vec![] })],
    };
    let mut pm = PackageManager::new();
    pm.add_package(package);
    let t = pm.get_type("c::T").expect("type");
    let c = flowrs_build::package::find_constructor(&t.constructors, "Code").expect("ctor");
    let obj = ObjectDescription {
        type_path: s("c::T"),
        type_parameter_part: s(""),
        name: s("x"),
        is_mutable: false,
    };
    let err = c.emit_code_template(&obj, &vec![], &pm, &Namespace::new()).expect_err("must fail");
    assert!(matches!(err, flowrs_build::package::EmitError::Template { .. }));
}

#[test]
fn malformed_template_is_reported() {
    let my_type = type_with_constructors(
        None,
        vec![(s("Code"), Constructor::FromCode { code_template: s("{{#if}}") })],
    );
    let package = Package {
        name: s("p"),
        version: s("1.0.0"),
        crates: vec![(s("c"), Crate { types: vec![(s("T"), my_type)], modules: vec![] })],
    };
    let mut pm = PackageManager::new();
    pm.add_package(package);
    let t = pm.get_type("c::T").expect("type");
    let c = flowrs_build::package::find_constructor(&t.constructors, "Code").expect("ctor");
    let obj = ObjectDescription {
        type_path: s("c::T"),
        type_parameter_part: s(""),
        name: s("x"),
        is_mutable: false,
    };
    let err = c.emit_code_template(&obj, &vec![], &pm, &Namespace::new()).expect_err("should fail");
    assert!(matches!(err, flowrs_build::package::EmitError::Template { .. }));
}

#[test]
fn data_is_escaped_into_the_source_literal() {
    let mut pm = PackageManager::new();
    pm.add_package(flowrs_std_package());
    let flow = FlowModel {
        nodes: vec![],
        connections: vec![],
        data: s("{\"a\":\"b\\\\c\"}"),
    };
    let rce = StandardCodeEmitter {};
    let body = rce.emit_init_function_body(&flow, &pm).expect("emission failed");
    assert!(body.contains("let data_str = \"{\\\"a\\\":\\\"b\\\\\\\\c\\\"}\";"));
}

#[test]
fn node_ids_count_up_from_zero() {
    let mut pm = PackageManager::new();
    pm.add_package(flowrs_std_package());
    let node = |name: &str| NodeModel {
        node_type: s("flowrs_std::nodes::debug::DebugNode"),
        type_parameters: vec![(s("I"), s("i32"))],
        constructor: s(name),
    };
    let flow = FlowModel {
        nodes: vec![(s("first"), node("New")), (s("second"), node("New"))],
        connections: vec![],
        data: s("{}"),
    };
    let rce = StandardCodeEmitter {};
    let body = rce.emit_init_function_body(&flow, &pm).expect("emission failed");
    assert!(body.contains("flow.add_node_with_id_and_desc(first, 0u128,"));
    assert!(body.contains("flow.add_node_with_id_and_desc(second, 1u128,"));
}

#[test]
fn one_connect_call_per_connection() {
    let mut pm = PackageManager::new();
    pm.add_package(flowrs_std_package());
    let flow = flow_for_tests();
    let rce = StandardCodeEmitter {};
    let body = rce.emit_init_function_body(&flow, &pm).expect("emission failed");
    let line = "connect(timer_config_node.output.clone(), timer_node.config_input.clone());";
    let first = body.find(line).expect("connect call missing");
    assert!(body[first + line.len()..].find(line).is_none());
    assert!(body.contains("connect(timer_token_node.output.clone(), timer_node.token_input.clone());"));
    assert!(body.contains("connect(timer_node.token_output.clone(), debug_node.input.clone());"));
}

#[test]
fn mutable_references_mangle_and_prefix() {
    let my_type = type_with_constructors(
        None,
        vec![(s("Default"), Constructor::FromDefault)],
    );
    let holder = type_with_constructors(
        None,
        vec![(
            s("New"),
            Constructor::NewWithArbitraryArgs {
                function_name: Some(s("create")),
                arguments: vec![Argument {
                    arg_type: concrete_ref("c::Inner"),
                    name: s("inner"),
                    passing: ArgumentPassing::MutableReference,
                    construction: ArgumentConstruction::Constructor(s("Default")),
                }],
            },
        )],
    );
    let package = Package {
        name: s("p"),
        version: s("1.0.0"),
        crates: vec![(
            s("c"),
            Crate {
                types: vec![(s("Inner"), my_type), (s("Holder"), holder)],
                modules: vec![],
            },
        )],
    };
    let mut pm = PackageManager::new();
    pm.add_package(package);
    let t = pm.get_type("c::Holder").expect("type");
    let c = flowrs_build::package::find_constructor(&t.constructors, "New").expect("ctor");
    let obj = ObjectDescription {
        type_path: s("c::Holder"),
        type_parameter_part: s(""),
        name: s("h"),
        is_mutable: false,
    };
    let code = c.emit_code_template(&obj, &vec![], &pm, &Namespace::new()).expect("");
    assert_eq!(
        "let mut h_inner:c::Inner = Default::default();\nlet h = c::Holder::create(&mut h_inner);",
        code
    );
}
