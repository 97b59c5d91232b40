use vstd::prelude::*;

use crate::ast::Node;

verus! {

/// The marker statement that gets injected: a plain string literal `test`.
pub open spec fn is_marker_string(n: Node) -> bool {
    match n {
        Node::Str { value } => value@ == "test"@,
        _ => false,
    }
}

/// The statements of a module whose body is a statement sequence.
pub open spec fn module_stmts(n: Node) -> Option<Seq<Node>> {
    match n {
        Node::Module { body, .. } => match body {
            Some(b) => match *b {
                Node::Begin { statements, .. } => Some(statements@),
                _ => None,
            },
            None => None,
        },
        _ => None,
    }
}

fn marker_string() -> (out: Node)
    ensures
        is_marker_string(out),
{
    Node::Str { value: String::from_str("test") }
}

/// Appends the marker statement to a module's body: a statement-sequence
/// body grows by the marker at its end; a body that is a single class
/// declaration is first wrapped into a sequence of that declaration and the
/// marker; any other node, and any other body shape, stays untouched.
pub fn mutate_module(node: Node) -> (out: Node)
    ensures
        !(node is Module) ==> out == node,
        out.spec_kind() == node.spec_kind(),
        match module_stmts(node) {
            Some(s) => module_stmts(out) matches Some(s2) && s2.len() == s.len() + 1
                && s2.drop_last() == s && is_marker_string(s2.last()),
            None => true,
        },
        (node matches Node::Module { body: Some(b), .. } && (*b) is Class) ==> (module_stmts(out)
            matches Some(s2) && s2.len() == 2 && is_marker_string(s2[1])),
{
    match node {
        Node::Module { name, body } => match body {
            Some(b) => match *b {
                Node::Begin { statements, begin_l, end_l } => {
                    let mut statements = statements;
                    statements.push(marker_string());
                    Node::Module {
                        name,
                        body: Some(Box::new(Node::Begin { statements, begin_l, end_l })),
                    }
                },
                Node::Class { name: cname, superclass, body: cbody } => {
                    let mut statements: Vec<Node> = Vec::new();
                    statements.push(Node::Class { name: cname, superclass, body: cbody });
                    statements.push(marker_string());
                    Node::Module {
                        name,
                        body: Some(
                            Box::new(
                                Node::Begin { statements, begin_l: None, end_l: None },
                            ),
                        ),
                    }
                },
                other => Node::Module { name, body: Some(Box::new(other)) },
            },
            None => Node::Module { name, body: None },
        },
        other => other,
    }
}

} // verus!
