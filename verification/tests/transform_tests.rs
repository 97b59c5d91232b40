use ruby_unparser::ast::Node;
use ruby_unparser::ast::SendNode;
use ruby_unparser::code_writer::write_code;
use ruby_unparser::combine_modules::combine_modules;
use ruby_unparser::combine_modules::const_name_from_node;
use ruby_unparser::combine_modules::normalize_children;
use ruby_unparser::combine_modules::statements_contains_modifier;
use ruby_unparser::context::CodeWriterContext;
use ruby_unparser::edit_methods::edit_methods;
use ruby_unparser::edit_methods::resolve_or_assign_arg;
use ruby_unparser::edit_methods::RenameTable;
use ruby_unparser::explore_constants::explore_constants;
use ruby_unparser::explore_constants::int_to_string;
use ruby_unparser::explore_constants::make_constant_hash_map;
use ruby_unparser::explore_constants::parse_int;
use ruby_unparser::explore_constants::ConstantHashValue;
use ruby_unparser::explore_constants::GenResolver;
use ruby_unparser::documentation_context::DocumentationContext;
use ruby_unparser::insert_test_in_module::mutate_module;
use ruby_unparser::ast::Loc;

fn render(node: &Node) -> String {
    write_code(node, &CodeWriterContext::new())
}

fn int_lit(text: &str) -> Node {
    Node::Int { value: String::from(text) }
}

fn constant(name: &str) -> Node {
    Node::Const { scope: None, name: String::from(name), double_colon_l: None }
}

fn begin_bare(statements: Vec<Node>) -> Node {
    Node::Begin { statements, begin_l: None, end_l: None }
}

fn empty_def(name: &str) -> Node {
    Node::Def { name: String::from(name), args: None, body: None, assignment_l: None }
}

fn bare_send(name: &str, args: Vec<Node>) -> Node {
    Node::Send(SendNode {
        recv: None,
        method_name: String::from(name),
        args,
        dot_l: None,
        operator_l: None,
    })
}

fn class_named(name: &str, body: Option<Node>) -> Node {
    Node::Class {
        name: Box::new(constant(name)),
        superclass: None,
        body: body.map(Box::new),
    }
}

fn def_name(node: &Node) -> &str {
    match node {
        Node::Def { name, .. } => name.as_str(),
        _ => panic!("expected a method definition"),
    }
}

#[test]
fn combiner_merges_duplicate_classes_in_order() {
    let first = class_named("Foo", Some(empty_def("a")));
    let second = class_named("Foo", Some(empty_def("b")));
    let tree = begin_bare(vec![first, second]);
    let combined = combine_modules(tree);
    match combined {
        Node::Begin { statements, .. } => {
            assert_eq!(statements.len(), 1);
            match &statements[0] {
                Node::Class { body: Some(b), .. } => match &**b {
                    Node::Begin { statements: inner, .. } => {
                        assert_eq!(inner.len(), 2);
                        assert_eq!(def_name(&inner[0]), "a");
                        assert_eq!(def_name(&inner[1]), "b");
                    },
                    _ => panic!("merged body is not a statement sequence"),
                },
                _ => panic!("kept statement is not the class"),
            }
        },
        _ => panic!("combining a sequence must yield a sequence"),
    }
}

#[test]
fn combiner_inserts_visibility_reset_after_trailing_private() {
    let first_body = begin_bare(vec![empty_def("a"), bare_send("private", vec![])]);
    let first = class_named("Foo", Some(first_body));
    let second = class_named("Foo", Some(empty_def("b")));
    let tree = begin_bare(vec![first, second]);
    let combined = combine_modules(tree);
    match combined {
        Node::Begin { statements, .. } => match &statements[0] {
            Node::Class { body: Some(b), .. } => match &**b {
                Node::Begin { statements: inner, .. } => {
                    assert_eq!(inner.len(), 4);
                    match &inner[2] {
                        Node::Send(send) => {
                            assert_eq!(send.method_name, "public");
                            assert_eq!(send.args.len(), 0);
                        },
                        _ => panic!("the reset call is missing"),
                    }
                    assert_eq!(def_name(&inner[3]), "b");
                },
                _ => panic!("merged body is not a statement sequence"),
            },
            _ => panic!("kept statement is not the class"),
        },
        _ => panic!("combining a sequence must yield a sequence"),
    }
}

#[test]
fn combiner_keeps_distinct_names_apart() {
    let tree = begin_bare(vec![
        class_named("Foo", Some(empty_def("a"))),
        class_named("Bar", Some(empty_def("b"))),
    ]);
    let combined = combine_modules(tree);
    match combined {
        Node::Begin { statements, .. } => assert_eq!(statements.len(), 2),
        _ => panic!("combining a sequence must yield a sequence"),
    }
}

#[test]
fn qualified_names_walk_scope_chains() {
    let nested = Node::Const {
        scope: Some(Box::new(constant("A"))),
        name: String::from("B"),
        double_colon_l: None,
    };
    assert_eq!(const_name_from_node(&nested), Some(String::from("A::B")));
    assert_eq!(const_name_from_node(&Node::Cbase {}), Some(String::new()));
    assert_eq!(const_name_from_node(&int_lit("1")), None);
}

#[test]
fn visibility_modifier_detection_ignores_calls_with_arguments() {
    let plain = vec![bare_send("private", vec![])];
    assert!(statements_contains_modifier(&plain));
    let with_arg = vec![bare_send("private", vec![int_lit("1")])];
    assert!(!statements_contains_modifier(&with_arg));
    let unrelated = vec![bare_send("puts", vec![])];
    assert!(!statements_contains_modifier(&unrelated));
}

#[test]
fn normalization_wraps_single_statements() {
    let wrapped = normalize_children(Some(Box::new(empty_def("a"))));
    match &*wrapped {
        Node::Begin { statements, begin_l: None, end_l: None } => {
            assert_eq!(statements.len(), 1)
        },
        _ => panic!("body was not normalized to a bare sequence"),
    }
    let empty = normalize_children(None);
    match &*empty {
        Node::Begin { statements, .. } => assert_eq!(statements.len(), 0),
        _ => panic!("missing body was not normalized"),
    }
}

#[test]
fn renamer_assigns_letters_and_keeps_scopes_apart() {
    let args = Node::Args {
        args: vec![
            Node::Arg { name: String::from("foo") },
            Node::Arg { name: String::from("bar") },
        ],
    };
    let inner_block = Node::Block {
        call: Box::new(bare_send("each", vec![])),
        args: Some(Box::new(Node::Args {
            args: vec![Node::Arg { name: String::from("z") }],
        })),
        body: Some(Box::new(begin_bare(vec![
            Node::Lvar { name: String::from("z") },
            Node::Lvar { name: String::from("foo") },
        ]))),
        begin_l: Loc { begin: 0, end: 1 },
    };
    let body = begin_bare(vec![
        Node::Lvar { name: String::from("foo") },
        Node::Lvar { name: String::from("foo") },
        Node::Lvar { name: String::from("bar") },
        inner_block,
    ]);
    let method = Node::Def {
        name: String::from("m"),
        args: Some(Box::new(args)),
        body: Some(Box::new(body)),
        assignment_l: None,
    };
    let renamed = edit_methods(method);
    let (args, body) = match renamed {
        Node::Def { args: Some(a), body: Some(b), .. } => (*a, *b),
        _ => panic!("method definition changed shape"),
    };
    match args {
        Node::Args { args: list } => {
            let names: Vec<&str> = list
                .iter()
                .map(|n| match n {
                    Node::Arg { name } => name.as_str(),
                    _ => panic!("parameter changed kind"),
                })
                .collect();
            assert_eq!(names, vec!["a", "b"]);
        },
        _ => panic!("parameter list changed kind"),
    }
    let stmts = match body {
        Node::Begin { statements, .. } => statements,
        _ => panic!("body changed shape"),
    };
    let lvar_name = |n: &Node| -> String {
        match n {
            Node::Lvar { name } => name.clone(),
            _ => panic!("expected a local variable read"),
        }
    };
    assert_eq!(lvar_name(&stmts[0]), "a");
    assert_eq!(lvar_name(&stmts[1]), "a");
    assert_eq!(lvar_name(&stmts[2]), "b");
    match &stmts[3] {
        Node::Block { args: Some(a), body: Some(b), .. } => {
            match &**a {
                Node::Args { args: list } => match &list[0] {
                    Node::Arg { name } => assert_eq!(name, "c"),
                    _ => panic!("block parameter changed kind"),
                },
                _ => panic!("block parameter list changed kind"),
            }
            match &**b {
                Node::Begin { statements: inner, .. } => {
                    assert_eq!(lvar_name(&inner[0]), "c");
                    assert_eq!(lvar_name(&inner[1]), "a");
                },
                _ => panic!("block body changed shape"),
            }
        },
        _ => panic!("block changed shape"),
    }
}

#[test]
fn rename_table_reuses_and_extends() {
    let mut table = RenameTable::new();
    let first = resolve_or_assign_arg(&mut table, &String::from("alpha"));
    assert_eq!(first, "a");
    let second = resolve_or_assign_arg(&mut table, &String::from("beta"));
    assert_eq!(second, "b");
    let again = resolve_or_assign_arg(&mut table, &String::from("alpha"));
    assert_eq!(again, "a");
    assert_eq!(table.entries.len(), 2);
}

#[test]
fn rename_table_exhaustion_keeps_original_names() {
    let mut table = RenameTable::new();
    for i in 0..26 {
        let name = format!("name{}", i);
        resolve_or_assign_arg(&mut table, &name);
    }
    let beyond = resolve_or_assign_arg(&mut table, &String::from("extra"));
    assert_eq!(beyond, "extra");
    let beyond_again = resolve_or_assign_arg(&mut table, &String::from("extra"));
    assert_eq!(beyond_again, "extra");
}

#[test]
fn pattern_binders_shed_their_alias() {
    let tree = begin_bare(vec![
        Node::Lvasgn { name: String::from("x"), value: None },
        Node::MatchVar { name: String::from("x") },
        Node::Lvar { name: String::from("x") },
    ]);
    let renamed = edit_methods(tree);
    let stmts = match renamed {
        Node::Begin { statements, .. } => statements,
        _ => panic!("sequence changed shape"),
    };
    match &stmts[0] {
        Node::Lvasgn { name, .. } => assert_eq!(name, "a"),
        _ => panic!("assignment changed kind"),
    }
    match &stmts[2] {
        Node::Lvar { name } => assert_eq!(name, "x"),
        _ => panic!("read changed kind"),
    }
}

#[test]
fn explorer_nests_and_prunes() {
    let inner = Node::Module {
        name: Box::new(constant("N")),
        body: Some(Box::new(Node::Casgn {
            scope: None,
            name: String::from("BAR"),
            value: Some(Box::new(Node::Sym {
                name: String::from("x"),
                begin_l: Some(Loc { begin: 0, end: 1 }),
                end_l: None,
            })),
        })),
    };
    let outer = Node::Module {
        name: Box::new(constant("M")),
        body: Some(Box::new(begin_bare(vec![
            Node::Casgn {
                scope: None,
                name: String::from("FOO"),
                value: Some(Box::new(int_lit("1"))),
            },
            inner,
            Node::Module { name: Box::new(constant("Empty")), body: None },
        ]))),
    };
    let mut map = make_constant_hash_map();
    explore_constants(&mut map, &outer, &GenResolver {});
    assert_eq!(map.entries.len(), 1);
    assert_eq!(map.entries[0].0, "M");
    match &map.entries[0].1 {
        ConstantHashValue::ModuleValue(m) => {
            assert_eq!(m.entries.len(), 2);
            assert_eq!(m.entries[0].0, "FOO");
            match &m.entries[0].1 {
                ConstantHashValue::EndValue(Node::Int { value }) => assert_eq!(value, "1"),
                _ => panic!("FOO was not recorded as the literal"),
            }
            assert_eq!(m.entries[1].0, "N");
            match &m.entries[1].1 {
                ConstantHashValue::ModuleValue(n) => {
                    assert_eq!(n.entries.len(), 1);
                    assert_eq!(n.entries[0].0, "BAR");
                },
                _ => panic!("N was not recorded as a nested map"),
            }
        },
        _ => panic!("M was not recorded as a nested map"),
    }
}

#[test]
fn explorer_resolves_generator_calls() {
    let call = SendNode {
        recv: None,
        method_name: String::from("gen"),
        args: vec![int_lit("1"), int_lit("2")],
        dot_l: None,
        operator_l: None,
    };
    let tree = Node::Casgn {
        scope: None,
        name: String::from("X"),
        value: Some(Box::new(Node::Send(call))),
    };
    let mut map = make_constant_hash_map();
    explore_constants(&mut map, &tree, &GenResolver {});
    assert_eq!(map.entries.len(), 1);
    assert_eq!(map.entries[0].0, "X");
    match &map.entries[0].1 {
        ConstantHashValue::EndValue(Node::Int { value }) => assert_eq!(value, "401"),
        _ => panic!("X was not resolved to the computed literal"),
    }
}

#[test]
fn explorer_drops_unrecognized_calls() {
    let tree = Node::Casgn {
        scope: None,
        name: String::from("X"),
        value: Some(Box::new(bare_send("other", vec![]))),
    };
    let mut map = make_constant_hash_map();
    explore_constants(&mut map, &tree, &GenResolver {});
    assert_eq!(map.entries.len(), 0);
}

#[test]
fn numeral_reading_and_writing() {
    assert_eq!(parse_int("402"), Some(402));
    assert_eq!(parse_int("-7"), Some(-7));
    assert_eq!(parse_int(""), None);
    assert_eq!(parse_int("12x"), None);
    assert_eq!(int_to_string(402), "402");
    assert_eq!(int_to_string(-7), "-7");
    assert_eq!(int_to_string(0), "0");
}

#[test]
fn marker_statement_is_appended_to_module_body() {
    let tree = Node::Module {
        name: Box::new(constant("M")),
        body: Some(Box::new(begin_bare(vec![empty_def("a")]))),
    };
    let mutated = mutate_module(tree);
    match mutated {
        Node::Module { body: Some(b), .. } => match &*b {
            Node::Begin { statements, .. } => {
                assert_eq!(statements.len(), 2);
                match &statements[1] {
                    Node::Str { value } => assert_eq!(value, "test"),
                    _ => panic!("the marker string is missing"),
                }
            },
            _ => panic!("module body lost its sequence shape"),
        },
        _ => panic!("module node changed kind"),
    }
}

#[test]
fn marker_statement_wraps_single_class_bodies() {
    let tree = Node::Module {
        name: Box::new(constant("M")),
        body: Some(Box::new(class_named("C", None))),
    };
    let mutated = mutate_module(tree);
    match mutated {
        Node::Module { body: Some(b), .. } => match &*b {
            Node::Begin { statements, .. } => {
                assert_eq!(statements.len(), 2);
                assert!(matches!(&statements[0], Node::Class { .. }));
                assert!(matches!(&statements[1], Node::Str { .. }));
            },
            _ => panic!("class body was not wrapped"),
        },
        _ => panic!("module node changed kind"),
    }
}

#[test]
fn documentation_block_is_found_above_a_node() {
    let source = b"# one\n# two\ncode".to_vec();
    let comments = vec![Loc { begin: 0, end: 6 }, Loc { begin: 6, end: 12 }];
    let ctx = DocumentationContext::new(comments, source, false);
    let out = ctx.write_documentation(0, 12);
    assert_eq!(out, b"# one\n# two\n".to_vec());
    assert!(!ctx.method_body_excluded());
}

#[test]
fn documentation_absent_when_no_comment_touches_the_node() {
    let source = b"# one\ncode".to_vec();
    let comments = vec![Loc { begin: 0, end: 6 }];
    let ctx = DocumentationContext::new(comments, source, true);
    let out = ctx.write_documentation(0, 9);
    assert_eq!(out.len(), 0);
    assert!(ctx.method_body_excluded());
}

#[test]
fn renders_combined_tree() {
    let tree = begin_bare(vec![
        class_named("Foo", Some(empty_def("a"))),
        class_named("Foo", Some(empty_def("b"))),
    ]);
    let combined = combine_modules(tree);
    assert_eq!(
        render(&combined),
        "class Foo\n  def a\n  end\n  def b\n  end\nend\n",
    );
}
