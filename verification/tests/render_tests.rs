use ruby_unparser::ast::Loc;
use ruby_unparser::ast::Node;
use ruby_unparser::ast::SendNode;
use ruby_unparser::code_writer::write_code;
use ruby_unparser::code_writer::write_indent;
use ruby_unparser::context::CodeWriterContext;

fn root() -> CodeWriterContext {
    CodeWriterContext::new()
}

fn render(node: &Node) -> String {
    write_code(node, &root())
}

fn int_lit(text: &str) -> Node {
    Node::Int { value: String::from(text) }
}

fn lvar(name: &str) -> Node {
    Node::Lvar { name: String::from(name) }
}

fn constant(name: &str) -> Node {
    Node::Const { scope: None, name: String::from(name), double_colon_l: None }
}

fn loc(begin: usize, end: usize) -> Loc {
    Loc { begin, end }
}

fn bare_send(name: &str, args: Vec<Node>) -> Node {
    Node::Send(SendNode {
        recv: None,
        method_name: String::from(name),
        args,
        dot_l: None,
        operator_l: None,
    })
}

fn begin_bare(statements: Vec<Node>) -> Node {
    Node::Begin { statements, begin_l: None, end_l: None }
}

#[test]
fn renders_keyword_literals() {
    assert_eq!(render(&Node::Nil {}), "nil");
    assert_eq!(render(&Node::True {}), "true");
    assert_eq!(render(&Node::False {}), "false");
    assert_eq!(render(&Node::Self_ {}), "self");
    assert_eq!(render(&Node::ZSuper {}), "super");
}

#[test]
fn renders_numeric_literals_verbatim() {
    assert_eq!(render(&int_lit("42")), "42");
    assert_eq!(render(&Node::Float { value: String::from("3.5") }), "3.5");
    assert_eq!(render(&Node::Rational { value: String::from("2r") }), "2r");
}

#[test]
fn renders_local_assignment() {
    let node = Node::Lvasgn { name: String::from("x"), value: Some(Box::new(int_lit("1"))) };
    assert_eq!(render(&node), "x = 1");
}

#[test]
fn renders_operator_assignments() {
    let node = Node::OpAsgn {
        recv: Box::new(lvar("x")),
        operator: String::from("+"),
        value: Box::new(int_lit("2")),
    };
    assert_eq!(render(&node), "x += 2");
    let node = Node::OrAsgn { recv: Box::new(lvar("x")), value: Box::new(int_lit("2")) };
    assert_eq!(render(&node), "x ||= 2");
    let node = Node::AndAsgn { recv: Box::new(lvar("x")), value: Box::new(int_lit("2")) };
    assert_eq!(render(&node), "x &&= 2");
}

#[test]
fn bare_array_omits_both_delimiters() {
    let node = Node::Array {
        elements: vec![int_lit("1"), int_lit("2")],
        begin_l: None,
        end_l: None,
    };
    assert_eq!(render(&node), "1, 2");
}

#[test]
fn bracketed_array_keeps_both_delimiters() {
    let node = Node::Array {
        elements: vec![int_lit("1"), int_lit("2")],
        begin_l: Some(loc(0, 1)),
        end_l: Some(loc(5, 6)),
    };
    assert_eq!(render(&node), "[1, 2]");
}

#[test]
fn percent_symbol_array_uses_wide_marker() {
    let sym = Node::Sym { name: String::from("a"), begin_l: None, end_l: None };
    let node = Node::Array { elements: vec![sym], begin_l: Some(loc(0, 3)), end_l: Some(loc(5, 6)) };
    assert_eq!(render(&node), "%i[a]");
}

#[test]
fn string_literal_escapes_interpolation_marker() {
    let node = Node::Str { value: String::from("it#s") };
    assert_eq!(render(&node), "'it\\#s'");
}

#[test]
fn string_literal_escapes_its_delimiter() {
    let node = Node::Str { value: String::from("it's") };
    assert_eq!(render(&node), "'it\\'s'");
}

#[test]
fn unsupported_interpolation_fragment_names_its_kind() {
    let node = Node::Dstr {
        parts: vec![Node::Nil {}],
        begin_l: Some(loc(0, 1)),
    };
    assert_eq!(render(&node), "\"<Unhandled node nil>\"");
}

#[test]
fn interpolated_string_uses_shorthand_fragments() {
    let node = Node::Dstr {
        parts: vec![
            Node::Str { value: String::from("a ") },
            Node::Ivar { name: String::from("@x") },
        ],
        begin_l: Some(loc(0, 1)),
    };
    assert_eq!(render(&node), "\"a #@x\"");
}

#[test]
fn interpolated_string_wraps_statement_fragments() {
    let node = Node::Dstr {
        parts: vec![
            Node::Str { value: String::from("n=") },
            begin_bare(vec![lvar("n")]),
        ],
        begin_l: Some(loc(0, 1)),
    };
    assert_eq!(render(&node), "\"n=#{n}\"");
}

#[test]
fn symbol_renders_with_leading_colon() {
    let node = Node::Sym { name: String::from("key"), begin_l: Some(loc(0, 1)), end_l: None };
    assert_eq!(render(&node), ":key");
}

#[test]
fn hash_pair_shorthand_depends_on_operator_width() {
    let shorthand = Node::Pair {
        key: Box::new(Node::Sym { name: String::from("k"), begin_l: None, end_l: None }),
        value: Box::new(int_lit("1")),
        operator_l: loc(0, 1),
    };
    let rocket = Node::Pair {
        key: Box::new(Node::Sym { name: String::from("k"), begin_l: Some(loc(0, 1)), end_l: None }),
        value: Box::new(int_lit("1")),
        operator_l: loc(0, 2),
    };
    assert_eq!(render(&shorthand), "k: 1");
    assert_eq!(render(&rocket), ":k => 1");
    let hash = Node::Hash {
        pairs: vec![shorthand],
        begin_l: Some(loc(0, 1)),
        end_l: Some(loc(7, 8)),
    };
    assert_eq!(render(&hash), "{k: 1}");
}

#[test]
fn send_forms() {
    assert_eq!(render(&bare_send("foo", vec![])), "foo");
    assert_eq!(render(&bare_send("foo", vec![int_lit("1")])), "foo 1");
    assert_eq!(render(&bare_send("foo", vec![int_lit("1"), int_lit("2")])), "foo(1, 2)");
    let dotted = Node::Send(SendNode {
        recv: Some(Box::new(lvar("x"))),
        method_name: String::from("foo"),
        args: vec![int_lit("1")],
        dot_l: Some(loc(1, 2)),
        operator_l: None,
    });
    assert_eq!(render(&dotted), "x.foo(1)");
    let setter = Node::Send(SendNode {
        recv: Some(Box::new(lvar("x"))),
        method_name: String::from("size="),
        args: vec![int_lit("3")],
        dot_l: Some(loc(1, 2)),
        operator_l: Some(loc(7, 8)),
    });
    assert_eq!(render(&setter), "x.size = 3");
    let negation = Node::Send(SendNode {
        recv: Some(Box::new(int_lit("5"))),
        method_name: String::from("-@"),
        args: vec![],
        dot_l: None,
        operator_l: None,
    });
    assert_eq!(render(&negation), "-5");
}

#[test]
fn safe_navigation_send() {
    let node = Node::CSend {
        recv: Box::new(lvar("x")),
        method_name: String::from("foo"),
        args: vec![int_lit("1")],
        begin_l: Some(loc(5, 6)),
        end_l: Some(loc(7, 8)),
        operator_l: None,
    };
    assert_eq!(render(&node), "x&.foo(1)");
}

#[test]
fn block_form_follows_marker_width() {
    let call = bare_send("foo", vec![]);
    let do_block = Node::Block {
        call: Box::new(call),
        args: None,
        body: Some(Box::new(int_lit("1"))),
        begin_l: loc(4, 6),
    };
    assert_eq!(render(&do_block), "foo do\n  1\nend");
    let brace_block = Node::Block {
        call: Box::new(bare_send("foo", vec![])),
        args: Some(Box::new(Node::Args {
            args: vec![Node::Arg { name: String::from("v") }],
        })),
        body: Some(Box::new(lvar("v"))),
        begin_l: loc(4, 5),
    };
    assert_eq!(render(&brace_block), "foo { |v| v }");
}

#[test]
fn numbered_block_parameter() {
    let node = Node::Numblock { call: Box::new(bare_send("foo", vec![])), numargs: 2 };
    assert_eq!(render(&node), "foo { _2 }");
}

#[test]
fn conditional_forms() {
    let plain = Node::If {
        cond: Box::new(Node::True {}),
        if_true: Some(Box::new(int_lit("1"))),
        if_false: None,
    };
    assert_eq!(render(&plain), "if true\n  1\nend");
    let negated = Node::If {
        cond: Box::new(Node::True {}),
        if_true: None,
        if_false: Some(Box::new(int_lit("2"))),
    };
    assert_eq!(render(&negated), "unless true\n  2\nend");
    let both = Node::If {
        cond: Box::new(Node::True {}),
        if_true: Some(Box::new(int_lit("1"))),
        if_false: Some(Box::new(int_lit("2"))),
    };
    assert_eq!(render(&both), "if true\n  1\nelse\n  2\nend");
    let ternary = Node::IfTernary {
        cond: Box::new(lvar("a")),
        if_true: Box::new(int_lit("1")),
        if_false: Box::new(int_lit("2")),
    };
    assert_eq!(render(&ternary), "a ? 1 : 2");
}

#[test]
fn loop_forms_follow_closing_marker() {
    let prefixed = Node::While {
        cond: Box::new(Node::True {}),
        body: Some(Box::new(int_lit("1"))),
        end_l: Some(loc(10, 13)),
    };
    assert_eq!(render(&prefixed), "while true\n  1\nend");
    let suffixed = Node::While {
        cond: Box::new(Node::True {}),
        body: Some(Box::new(int_lit("1"))),
        end_l: None,
    };
    assert_eq!(render(&suffixed), "1 while true");
}

#[test]
fn case_with_else() {
    let when = Node::When { patterns: vec![int_lit("1")], body: Some(Box::new(int_lit("2"))) };
    let node = Node::Case {
        expr: Some(Box::new(lvar("x"))),
        when_bodies: vec![when],
        else_body: Some(Box::new(int_lit("3"))),
    };
    assert_eq!(render(&node), "case x\nwhen 1\n  2\nelse\n  3\nend");
}

#[test]
fn method_with_rescue_clause_dedents() {
    let rescue = Node::Rescue {
        body: Some(Box::new(int_lit("1"))),
        rescue_bodies: vec![Node::RescueBody { exc_list: None, exc_var: None, body: None }],
        else_: None,
    };
    let node = Node::Def {
        name: String::from("foo"),
        args: None,
        body: Some(Box::new(rescue)),
        assignment_l: None,
    };
    assert_eq!(render(&node), "def foo\n  1\nrescue\nend");
}

#[test]
fn keyword_begin_block() {
    let node = Node::KwBegin {
        statements: vec![int_lit("1")],
        begin_l: Some(loc(0, 5)),
        end_l: Some(loc(9, 12)),
    };
    assert_eq!(render(&node), "begin\n  1\nend");
}

#[test]
fn module_indents_body_by_two_spaces() {
    let body = begin_bare(vec![Node::Lvasgn {
        name: String::from("x"),
        value: Some(Box::new(int_lit("1"))),
    }]);
    let node = Node::Module { name: Box::new(constant("M")), body: Some(Box::new(body)) };
    assert_eq!(render(&node), "module M\n  x = 1\nend");
}

#[test]
fn nested_modules_indent_strictly_deeper_per_level() {
    let inner_body = begin_bare(vec![Node::Lvasgn {
        name: String::from("y"),
        value: Some(Box::new(int_lit("1"))),
    }]);
    let inner = Node::Module { name: Box::new(constant("N")), body: Some(Box::new(inner_body)) };
    let outer = Node::Module {
        name: Box::new(constant("M")),
        body: Some(Box::new(begin_bare(vec![inner]))),
    };
    let text = render(&outer);
    assert_eq!(text, "module M\n  module N\n    y = 1\n  end\nend");
    let lines: Vec<&str> = text.lines().collect();
    let leading = |s: &str| s.len() - s.trim_start_matches(' ').len();
    assert_eq!(leading(lines[0]), 0);
    assert_eq!(leading(lines[1]), leading(lines[0]) + 2);
    assert_eq!(leading(lines[2]), leading(lines[1]) + 2);
}

#[test]
fn class_with_superclass() {
    let node = Node::Class {
        name: Box::new(constant("A")),
        superclass: Some(Box::new(constant("B"))),
        body: None,
    };
    assert_eq!(render(&node), "class A < B\nend");
}

#[test]
fn endless_method_definition() {
    let node = Node::Def {
        name: String::from("foo"),
        args: None,
        body: Some(Box::new(int_lit("1"))),
        assignment_l: Some(loc(8, 9)),
    };
    assert_eq!(render(&node), "def foo = 1");
}

#[test]
fn qualified_constant_and_top_level_marker() {
    let node = Node::Const {
        scope: Some(Box::new(constant("A"))),
        name: String::from("B"),
        double_colon_l: Some(loc(1, 3)),
    };
    assert_eq!(render(&node), "A::B");
    assert_eq!(render(&Node::Cbase {}), "::");
}

#[test]
fn write_indent_emits_two_spaces_per_level() {
    assert_eq!(write_indent(0), "");
    assert_eq!(write_indent(1), "  ");
    assert_eq!(write_indent(3), "      ");
}

#[test]
fn context_derivation() {
    let c = CodeWriterContext::new();
    assert_eq!(c.indent, 0);
    let deeper = c.indent();
    assert_eq!(deeper.indent, 1);
    let back = deeper.outdent();
    assert_eq!(back.indent, 0);
    let floor = back.outdent();
    assert_eq!(floor.indent, 0);
}

#[test]
fn ranges_and_flip_flops() {
    let node = Node::Irange {
        left: Some(Box::new(int_lit("1"))),
        right: Some(Box::new(int_lit("9"))),
    };
    assert_eq!(render(&node), "1..9");
    let node = Node::Erange { left: Some(Box::new(int_lit("1"))), right: None };
    assert_eq!(render(&node), "1...");
}

#[test]
fn regexp_with_options() {
    let node = Node::Regexp {
        parts: vec![Node::Str { value: String::from("ab") }],
        options: Some(Box::new(Node::RegOpt { options: Some(String::from("i")) })),
        begin_l: loc(0, 1),
    };
    assert_eq!(render(&node), "/ab/i");
}
