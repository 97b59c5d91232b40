use vstd::prelude::*;

use crate::ast::Loc;
use crate::ast::Node;
use crate::ast::SendNode;

verus! {

broadcast use vstd::seq_lib::group_seq_properties;

/// The fully qualified `::`-joined name of a constant reference: a chain of
/// `Const` scopes ending in a bare name or in an explicit top-level marker.
/// Any other node shape is not a usable name.
pub open spec fn spec_const_name(n: Node) -> Option<Seq<char>>
    decreases n,
{
    match n {
        Node::Const { scope, name, .. } => match scope {
            Some(s) => match spec_const_name(*s) {
                Some(base) => Some(base + "::"@ + name@),
                None => None,
            },
            None => Some(name@),
        },
        Node::Cbase {  } => Some(Seq::<char>::empty()),
        _ => None,
    }
}

/// The qualified name of a class or module declaration's name node, or
/// nothing when the name is not a well-formed constant chain (a shape the
/// combiner then leaves alone).
pub fn const_name_from_node(node: &Node) -> (out: Option<String>)
    ensures
        match out {
            Some(s) => spec_const_name(*node) == Some(s@),
            None => spec_const_name(*node) is None,
        },
    decreases node,
{
    match node {
        Node::Const { scope, name, .. } => match scope {
            Some(s) => match const_name_from_node(&**s) {
                Some(base) => {
                    let mut full = base;
                    full.append("::");
                    full.append(name.as_str());
                    Some(full)
                },
                None => None,
            },
            None => Some(name.clone()),
        },
        Node::Cbase {  } => Some(String::new()),
        _ => None,
    }
}

/// A bare visibility-modifier call: `private`, `protected` or
/// `module_function` with no receiver, no arguments and no assignment form.
pub open spec fn is_bare_visibility_send(n: Node) -> bool {
    match n {
        Node::Send(s) => s.args@.len() == 0 && s.dot_l is None && s.operator_l is None && (
        s.method_name@ == "private"@ || s.method_name@ == "protected"@ || s.method_name@
            == "module_function"@),
        _ => false,
    }
}

/// Does a statement sequence contain an unresolved trailing visibility
/// modifier anywhere in it?
pub open spec fn spec_contains_modifier(s: Seq<Node>) -> bool {
    exists|i: int| 0 <= i < s.len() && is_bare_visibility_send(s[i])
}

pub fn statements_contains_modifier(statements: &Vec<Node>) -> (b: bool)
    ensures
        b == spec_contains_modifier(statements@),
{
    let n = statements.len();
    let mut i: usize = 0;
    while i < n
        invariant
            n == statements@.len(),
            i <= n,
            forall|j: int| 0 <= j < i ==> !is_bare_visibility_send(statements@[j]),
        decreases n - i,
    {
        let hit = match &statements[i] {
            Node::Send(s) => s.args.len() == 0 && s.dot_l.is_none() && s.operator_l.is_none() && (
            crate::code_writer::string_eq_literal(&s.method_name, "private")
                || crate::code_writer::string_eq_literal(&s.method_name, "protected")
                || crate::code_writer::string_eq_literal(&s.method_name, "module_function")),
            _ => false,
        };
        if hit {
            return true;
        }
        i = i + 1;
    }
    false
}

/// A bare `public` call, as inserted between merged bodies so that a
/// visibility modifier left open by the first body cannot leak into the
/// second body's members.
pub open spec fn is_public_reset(n: Node) -> bool {
    match n {
        Node::Send(s) => s.recv is None && s.args@.len() == 0 && s.dot_l is None && s.operator_l
            is None && s.method_name@ == "public"@,
        _ => false,
    }
}

/// Builds the visibility reset call.
fn make_public_send() -> (out: Node)
    ensures
        is_public_reset(out),
{
    Node::Send(
        SendNode {
            recv: None,
            method_name: String::from_str("public"),
            args: Vec::new(),
            dot_l: None,
            operator_l: None,
        },
    )
}

/// Appends one normalized body's statements onto another, inserting the
/// visibility reset first when the existing statements hold an unresolved
/// modifier.
pub fn combine_bodies(existing: &mut Vec<Node>, new_statements: Vec<Node>)
    ensures
        !spec_contains_modifier(old(existing)@) ==> final(existing)@ == old(existing)@
            + new_statements@,
        spec_contains_modifier(old(existing)@) ==> {
            &&& final(existing)@.len() == old(existing)@.len() + 1 + new_statements@.len()
            &&& final(existing)@.subrange(0, old(existing)@.len() as int) == old(existing)@
            &&& is_public_reset(final(existing)@[old(existing)@.len() as int])
            &&& final(existing)@.subrange(
                old(existing)@.len() as int + 1,
                final(existing)@.len() as int,
            ) == new_statements@
        },
{
    let ghost orig = existing@;
    let ghost news = new_statements@;
    if statements_contains_modifier(existing) {
        existing.push(make_public_send());
    }
    let ghost mid = existing@;
    let mut rest = new_statements;
    while rest.len() > 0
        invariant
            rest@.len() <= news.len(),
            existing@ == mid + news.take(news.len() - rest@.len()),
            rest@ == news.skip(news.len() - rest@.len()),
        decreases rest@.len(),
    {
        let ghost done = news.len() - rest@.len();
        let st = rest.remove(0);
        existing.push(st);
        proof {
            assert(news.take(done + 1) =~= news.take(done).push(news[done]));
            assert(mid + news.take(done) + seq![news[done]] =~= mid + news.take(done + 1));
            assert(rest@ =~= news.skip(done + 1));
        }
    }
    proof {
        assert(news.take(news.len() as int) =~= news);
        if spec_contains_modifier(orig) {
            assert(existing@.subrange(0, orig.len() as int) =~= orig);
            assert(existing@.subrange(orig.len() as int + 1, existing@.len() as int) =~= news);
        }
    }
}

/// Forces an optional class or module body into the uniform shape the merge
/// algorithm works on: a statement-sequence node without delimiters, holding
/// zero or one original statements.
pub fn normalize_children(children: Option<Box<Node>>) -> (out: Box<Node>)
    ensures
        (*out) is Begin,
        match children {
            Some(b) => if (*b) is Begin {
                out == b
            } else {
                (*out) matches Node::Begin { statements, begin_l: None, end_l: None }
                    && statements@ == seq![*b]
            },
            None => (*out) matches Node::Begin { statements, begin_l: None, end_l: None }
                && statements@ == Seq::<Node>::empty(),
        },
{
    match children {
        Some(b) => {
            let already = match &*b {
                Node::Begin { .. } => true,
                _ => false,
            };
            if already {
                b
            } else {
                let mut statements: Vec<Node> = Vec::new();
                statements.push(*b);
                Box::new(Node::Begin { statements, begin_l: None, end_l: None })
            }
        },
        None => Box::new(
            Node::Begin { statements: Vec::new(), begin_l: None, end_l: None },
        ),
    }
}

/// The statements of a statement-sequence node (empty for anything else).
pub open spec fn stmts_of(n: Node) -> Seq<Node> {
    match n {
        Node::Begin { statements, .. } => statements@,
        _ => Seq::empty(),
    }
}

/// Does the node carry a normalized body: a class or module whose body is a
/// statement-sequence node?
pub open spec fn has_normalized_body(n: Node) -> bool {
    match n {
        Node::Class { body, .. } => body matches Some(b) && (*b) is Begin,
        Node::Module { body, .. } => body matches Some(b) && (*b) is Begin,
        _ => false,
    }
}

/// The qualified name a class or module declaration merges under; any
/// other statement has none.
pub open spec fn decl_name(n: Node) -> Option<Seq<char>> {
    match n {
        Node::Class { name, .. } => spec_const_name(*name),
        Node::Module { name, .. } => spec_const_name(*name),
        _ => None,
    }
}

/// The recorded superclass expression, where the node is a class.
pub open spec fn superclass_of(n: Node) -> Option<Box<Node>> {
    match n {
        Node::Class { superclass, .. } => superclass,
        _ => None,
    }
}

/// The delimiter markers of a statement-sequence node.
pub open spec fn seq_markers(n: Node) -> (Option<Loc>, Option<Loc>) {
    match n {
        Node::Begin { begin_l, end_l, .. } => (begin_l, end_l),
        _ => (None, None),
    }
}

/// Is the statement at `i` a later duplicate: a named declaration whose
/// qualified name already appeared on an earlier statement?
pub open spec fn is_dup_at(s: Seq<Node>, i: int) -> bool {
    decl_name(s[i]) is Some && exists|j: int|
        0 <= j < i && #[trigger] decl_name(s[j]) == decl_name(s[i])
}

/// How many of the first `p` statements the pass keeps: all but the later
/// duplicates.
pub open spec fn kept_count_upto(s: Seq<Node>, p: int) -> nat
    decreases p,
{
    if p <= 0 {
        0
    } else {
        kept_count_upto(s, p - 1) + (if is_dup_at(s, p - 1) {
            0nat
        } else {
            1nat
        })
    }
}

/// The input position of the `k`-th kept statement among the first `p`.
pub open spec fn kept_index_upto(s: Seq<Node>, p: int, k: int) -> int
    decreases p,
{
    if p <= 0 {
        0
    } else if is_dup_at(s, p - 1) {
        kept_index_upto(s, p - 1, k)
    } else if k == kept_count_upto(s, p - 1) {
        p - 1
    } else {
        kept_index_upto(s, p - 1, k)
    }
}

/// The statements an optional declaration body holds once normalized: a
/// statement sequence keeps its statements, a single statement becomes a
/// one-element sequence, a missing body an empty one.
pub open spec fn body_stmts(body: Option<Box<Node>>) -> Seq<Node> {
    match body {
        Some(b) => match *b {
            Node::Begin { statements, .. } => statements@,
            other => seq![other],
        },
        None => Seq::empty(),
    }
}

/// The normalized body statements of a declaration.
pub open spec fn normalized_stmts(n: Node) -> Seq<Node> {
    match n {
        Node::Class { body, .. } => body_stmts(body),
        Node::Module { body, .. } => body_stmts(body),
        _ => Seq::empty(),
    }
}

/// One body append, exactly as `combine_bodies` states it: the duplicate's
/// normalized statements arrive at the end, behind a visibility reset when
/// the statements so far hold an unresolved modifier.
pub open spec fn appended_once(before: Seq<Node>, dup: Node, after: Seq<Node>) -> bool {
    if spec_contains_modifier(before) {
        &&& after.len() == before.len() + 1 + normalized_stmts(dup).len()
        &&& after.subrange(0, before.len() as int) == before
        &&& is_public_reset(after[before.len() as int])
        &&& after.subrange(before.len() as int + 1, after.len() as int) == normalized_stmts(dup)
    } else {
        after == before + normalized_stmts(dup)
    }
}

/// The body after every duplicate was appended, in order.
pub open spec fn merged_body_rel(start: Seq<Node>, dups: Seq<Node>, end: Seq<Node>) -> bool
    decreases dups.len(),
{
    if dups.len() == 0 {
        end == start
    } else {
        exists|mid: Seq<Node>|
            merged_body_rel(start, dups.drop_last(), mid) && #[trigger] appended_once(
                mid,
                dups.last(),
                end,
            )
    }
}

/// The later duplicates of the declaration at `i`, in input order, among
/// the first `p` statements.
pub open spec fn dups_of(s: Seq<Node>, i: int, p: int) -> Seq<Node>
    decreases p,
{
    if i < 0 || p <= i + 1 {
        Seq::empty()
    } else {
        dups_of(s, i, p - 1) + (if decl_name(s[p - 1]) == decl_name(s[i]) {
            seq![s[p - 1]]
        } else {
            Seq::<Node>::empty()
        })
    }
}

/// How one statement relates to the statement kept for it, looking only at
/// the statement itself: anything that is not a named declaration is kept
/// exactly; a declaration keeps its kind, qualified name and superclass and
/// carries a normalized body. (What that body holds is stated separately,
/// through the merge chain.)
pub open spec fn kept_shallow_upto(s: Seq<Node>, p: int, t: Seq<Node>, k: int) -> bool {
    let i = kept_index_upto(s, p, k);
    &&& 0 <= i < p <= s.len()
    &&& !is_dup_at(s, i)
    &&& (decl_name(s[i]) is None ==> t[k] == s[i])
    &&& (decl_name(s[i]) is Some ==> {
        &&& decl_name(t[k]) == decl_name(s[i])
        &&& (t[k] is Class <==> s[i] is Class)
        &&& (t[k] is Module <==> s[i] is Module)
        &&& superclass_of(t[k]) == superclass_of(s[i])
        &&& has_normalized_body(t[k])
    })
}

/// The statement-by-statement part of the pass: exactly the kept
/// statements, in order, each related to its input statement.
pub open spec fn shallow_stmts_rel(s: Seq<Node>, t: Seq<Node>) -> bool {
    &&& t.len() == kept_count_upto(s, s.len() as int)
    &&& forall|k: int| 0 <= k < t.len() ==> #[trigger] kept_shallow_upto(s, s.len() as int, t, k)
}

/// The whole pass, merged bodies included: the kept statements as above,
/// and every kept declaration's body is some statement-level combination of
/// its own normalized body, extended by each later duplicate in input order
/// exactly as `combine_bodies` states (visibility reset included).
pub open spec fn combined_stmts_rel(s: Seq<Node>, t: Seq<Node>) -> bool {
    &&& t.len() == kept_count_upto(s, s.len() as int)
    &&& forall|k: int| 0 <= k < t.len() ==> #[trigger] kept_rel_upto(s, s.len() as int, t, k)
}

/// A kept position lies among the first `p` statements.
proof fn lemma_kept_index_bound(s: Seq<Node>, p: int, k: int)
    requires
        0 <= k < kept_count_upto(s, p),
    ensures
        0 <= kept_index_upto(s, p, k) < p,
    decreases p,
{
    if p > 0 {
        if is_dup_at(s, p - 1) {
            lemma_kept_index_bound(s, p - 1, k);
        } else if k == kept_count_upto(s, p - 1) {
        } else {
            lemma_kept_index_bound(s, p - 1, k);
        }
    }
}

/// Kept positions come in input order: distinct output positions stand for
/// distinct input statements.
proof fn lemma_kept_index_mono(s: Seq<Node>, p: int, k1: int, k2: int)
    requires
        0 <= k1 < k2 < kept_count_upto(s, p),
    ensures
        kept_index_upto(s, p, k1) < kept_index_upto(s, p, k2),
    decreases p,
{
    if p > 0 {
        if is_dup_at(s, p - 1) {
            lemma_kept_index_mono(s, p - 1, k1, k2);
        } else if k2 == kept_count_upto(s, p - 1) {
            lemma_kept_index_bound(s, p - 1, k1);
        } else {
            lemma_kept_index_mono(s, p - 1, k1, k2);
        }
    }
}

/// One more append extends the merge chain by one duplicate.
proof fn lemma_merged_body_extend(
    start: Seq<Node>,
    dups: Seq<Node>,
    mid: Seq<Node>,
    dup: Node,
    end: Seq<Node>,
)
    requires
        merged_body_rel(start, dups, mid),
        appended_once(mid, dup, end),
    ensures
        merged_body_rel(start, dups.push(dup), end),
{
    let grown = dups.push(dup);
    assert(grown.drop_last() =~= dups);
    assert(grown.last() == dup);
    assert(grown.len() == dups.len() + 1);
    assert(merged_body_rel(start, grown.drop_last(), mid));
    assert(appended_once(mid, grown.last(), end));
    assert(exists|mid2: Seq<Node>|
        merged_body_rel(start, grown.drop_last(), mid2) && #[trigger] appended_once(
            mid2,
            grown.last(),
            end,
        ));
    assert(merged_body_rel(start, grown, end)) by {
        reveal_with_fuel(merged_body_rel, 2);
    }
}

/// How the `k`-th output statement relates to the input, merged body
/// included: the shallow relation, and for a kept declaration a merge chain
/// from a statement-level combination of its own normalized body through
/// the later duplicates.
pub open spec fn kept_rel_upto(s: Seq<Node>, p: int, t: Seq<Node>, k: int) -> bool {
    let i = kept_index_upto(s, p, k);
    &&& kept_shallow_upto(s, p, t, k)
    &&& (decl_name(s[i]) is Some ==> exists|start: Seq<Node>|
        #[trigger] shallow_stmts_rel(normalized_stmts(s[i]), start) && merged_body_rel(
            start,
            dups_of(s, i, p),
            normalized_stmts(t[k]),
        ))
}

/// One remembered name: it points into the output, and some earlier input
/// statement declared it.
pub open spec fn seen_ok(s: Seq<Node>, p: int, t: Seq<Node>, entry: (String, usize)) -> bool {
    &&& (entry.1 as int) < t.len()
    &&& decl_name(t[entry.1 as int]) == Some(entry.0@)
    &&& exists|i: int| 0 <= i < p && #[trigger] decl_name(s[i]) == Some(entry.0@)
}

/// A one-statement sequence combined: the single statement's combined form,
/// as a one-element sequence.
proof fn lemma_shallow_singleton(a: Node, b: Node)
    requires
        decl_name(a) is None ==> b == a,
        decl_name(a) is Some ==> {
            &&& decl_name(b) == decl_name(a)
            &&& (b is Class <==> a is Class)
            &&& (b is Module <==> a is Module)
            &&& superclass_of(b) == superclass_of(a)
            &&& has_normalized_body(b)
        },
    ensures
        shallow_stmts_rel(seq![a], seq![b]),
{
    reveal_with_fuel(kept_count_upto, 3);
    reveal_with_fuel(kept_index_upto, 3);
    let s = seq![a];
    let t = seq![b];
    assert(!is_dup_at(s, 0));
    assert(kept_count_upto(s, 1) == 1);
    assert forall|k: int| 0 <= k < t.len() implies #[trigger] kept_shallow_upto(s, 1, t, k) by {
        assert(kept_index_upto(s, 1, k) == 0);
    }
}

/// Merges repeated declarations of the same fully qualified class or module
/// name within each statement sequence of the tree, in place of the first
/// declaration; later duplicates disappear from the sequence, their bodies
/// appended to the first body (behind a visibility reset where needed). Any
/// node that is not a statement sequence, class or module is left untouched.
pub fn combine_modules(node: Node) -> (out: Node)
    ensures
        !(node is Begin || node is Class || node is Module) ==> out == node,
        node is Class ==> out is Class && has_normalized_body(out),
        node is Module ==> out is Module && has_normalized_body(out),
        decl_name(out) == decl_name(node),
        superclass_of(out) == superclass_of(node),
        node is Class ==> shallow_stmts_rel(normalized_stmts(node), normalized_stmts(out)),
        node is Module ==> shallow_stmts_rel(normalized_stmts(node), normalized_stmts(out)),
        node is Begin ==> {
            &&& out is Begin
            &&& seq_markers(out) == seq_markers(node)
            &&& combined_stmts_rel(stmts_of(node), stmts_of(out))
        },
    decreases node, 1int,
{
    match node {
        Node::Begin { statements, begin_l, end_l } => {
            let combined = combine_statements(statements, Ghost(statements@));
            Node::Begin { statements: combined, begin_l, end_l }
        },
        Node::Class { name, superclass, body } => {
            let new_body = combine_body(body);
            Node::Class { name, superclass, body: Some(new_body) }
        },
        Node::Module { name, body } => {
            let new_body = combine_body(body);
            Node::Module { name, body: Some(new_body) }
        },
        other => other,
    }
}

/// Normalizes an optional class or module body and merges duplicate
/// declarations inside it.
fn combine_body(body: Option<Box<Node>>) -> (out: Box<Node>)
    ensures
        (*out) is Begin,
        shallow_stmts_rel(body_stmts(body), stmts_of(*out)),
    decreases body, 0int,
{
    match body {
        Some(b) => match *b {
            Node::Begin { statements, begin_l, end_l } => {
                let ghost stmts0 = statements@;
                let combined = combine_statements(statements, Ghost(statements@));
                let out = Box::new(Node::Begin { statements: combined, begin_l, end_l });
                proof {
                    assert forall|k: int| 0 <= k < combined@.len() implies
                        #[trigger] kept_shallow_upto(stmts0, stmts0.len() as int, combined@, k) by {
                        assert(kept_rel_upto(stmts0, stmts0.len() as int, combined@, k));
                    }
                }
                out
            },
            single => {
                let ghost single0 = single;
                let named = match &single {
                    Node::Class { name, .. } => const_name_from_node(&**name).is_some(),
                    Node::Module { name, .. } => const_name_from_node(&**name).is_some(),
                    _ => false,
                };
                let merged = if named {
                    combine_single(single)
                } else {
                    single
                };
                let mut statements: Vec<Node> = Vec::new();
                statements.push(merged);
                let out = Box::new(Node::Begin { statements, begin_l: None, end_l: None });
                proof {
                    lemma_shallow_singleton(single0, merged);
                    assert(stmts_of(*out) =~= seq![merged]);
                    assert(body_stmts(body) =~= seq![single0]);
                }
                out
            },
        },
        None => {
            let out = Box::new(Node::Begin { statements: Vec::new(), begin_l: None, end_l: None });
            proof {
                assert(stmts_of(*out) =~= Seq::<Node>::empty());
                assert(kept_count_upto(Seq::<Node>::empty(), 0) == 0);
            }
            out
        },
    }
}

/// Merges inside one statement that stands alone as a class or module body.
fn combine_single(node: Node) -> (out: Node)
    ensures
        !(node is Class || node is Module) ==> out == node,
        node is Class ==> out is Class && has_normalized_body(out),
        node is Module ==> out is Module && has_normalized_body(out),
        decl_name(out) == decl_name(node),
        superclass_of(out) == superclass_of(node),
        node is Class ==> shallow_stmts_rel(normalized_stmts(node), normalized_stmts(out)),
        node is Module ==> shallow_stmts_rel(normalized_stmts(node), normalized_stmts(out)),
    decreases node, 0int,
{
    match node {
        Node::Class { name, superclass, body } => {
            let ghost body0 = body;
            let new_body = combine_body(body);
            let out = Node::Class { name, superclass, body: Some(new_body) };
            proof {
                assert(normalized_stmts(out) == stmts_of(*new_body));
            }
            out
        },
        Node::Module { name, body } => {
            let ghost body0 = body;
            let new_body = combine_body(body);
            let out = Node::Module { name, body: Some(new_body) };
            proof {
                assert(normalized_stmts(out) == stmts_of(*new_body));
            }
            out
        },
        other => other,
    }
}

/// One left-to-right pass over a statement sequence. A class or module
/// declaration whose qualified name is new is kept (its own body merged
/// recursively) and remembered; a repeat of a remembered name is dropped
/// from the sequence and its normalized body appended onto the remembered
/// declaration. Everything else is kept unchanged, in order.
#[verifier::spinoff_prover]
#[verifier::rlimit(100)]
fn combine_statements(statements: Vec<Node>, Ghost(m): Ghost<Seq<Node>>) -> (out: Vec<Node>)
    requires
        statements@ == m,
    ensures
        combined_stmts_rel(statements@, out@),
    decreases m, 0int,
{
    let ghost orig = statements@;
    let mut result: Vec<Node> = Vec::new();
    let mut seen: Vec<(String, usize)> = Vec::new();
    let mut rest = statements;
    proof {
        assert(orig.skip(0) =~= orig);
        assert(0 <= 0 <= orig.len() && rest@ == orig.skip(0) && 0 + rest@.len() == orig.len());
    }
    while rest.len() > 0
        invariant
            orig == m,
            exists|p: int| 0 <= p <= orig.len() && rest@ == orig.skip(p) && p + rest@.len() == orig.len(),
            result@.len() == kept_count_upto(orig, orig.len() - rest@.len()),
            forall|kk: int|
                0 <= kk < result@.len() ==> #[trigger] kept_rel_upto(
                    orig,
                    orig.len() - rest@.len(),
                    result@,
                    kk,
                ),
            forall|j: int|
                0 <= j < seen@.len() ==> #[trigger] seen_ok(
                    orig,
                    orig.len() - rest@.len(),
                    result@,
                    seen@[j],
                ),
            forall|i: int|
                0 <= i < orig.len() - rest@.len() && (#[trigger] decl_name(orig[i])) is Some
                    ==> exists|j: int|
                    0 <= j < seen@.len() && (#[trigger] seen@[j]).0@ == decl_name(orig[i])->Some_0,
        decreases rest@.len(),
    {
        let ghost k = choose|p: int|
            0 <= p <= orig.len() && rest@ == orig.skip(p) && p + rest@.len() == orig.len();
        let st = rest.remove(0);
        proof {
            assert(st == orig[k]);
            assert(rest@ =~= orig.skip(k + 1));
            assert(decreases_to!(statements => statements@));
            assert(decreases_to!(orig => orig[k]));
            assert(0 <= k + 1 <= orig.len() && rest@ == orig.skip(k + 1) && k + 1 + rest@.len()
                == orig.len());
        }
        let is_decl = match &st {
            Node::Class { .. } => true,
            Node::Module { .. } => true,
            _ => false,
        };
        if is_decl {
            let name_node: &Node = match &st {
                Node::Class { name, .. } => &**name,
                Node::Module { name, .. } => &**name,
                _ => &st,
            };
            let qualified = const_name_from_node(name_node);
            match qualified {
                Some(qname) => {
                    proof {
                        assert(decl_name(st) == Some(qname@));
                    }
                    let found = find_seen(&seen, &qname);
                    match found {
                        Some(idx) => {
                            let ghost res0 = result@;
                            proof {
                                let j = choose|j: int|
                                    0 <= j < seen@.len() && (#[trigger] seen@[j]).1 == idx
                                        && seen@[j].0@ == qname@;
                                assert(seen_ok(orig, k, res0, seen@[j]));
                                assert(is_dup_at(orig, k));
                                assert(kept_count_upto(orig, k + 1) == kept_count_upto(orig, k));
                            }
                            let existing = result.remove(idx);
                            let merged = merge_into(existing, st);
                            result.insert(idx, merged);
                            proof {
                                assert(result@ =~= res0.update(idx as int, merged));
                                assert(result@[idx as int] == merged);
                                assert(existing == res0[idx as int]);
                                let j0 = choose|j: int|
                                    0 <= j < seen@.len() && (#[trigger] seen@[j]).1 == idx
                                        && seen@[j].0@ == qname@;
                                assert(seen_ok(orig, k, res0, seen@[j0]));
                                assert(decl_name(res0[idx as int]) == Some(qname@));
                                assert(kept_rel_upto(orig, k, res0, idx as int));
                                let i_idx = kept_index_upto(orig, k, idx as int);
                                if decl_name(orig[i_idx]) is None {
                                    assert(res0[idx as int] == orig[i_idx]);
                                    assert(false);
                                }
                                assert(decl_name(orig[i_idx]) == Some(qname@));
                                assert forall|kk: int| 0 <= kk < result@.len() implies
                                    #[trigger] kept_rel_upto(orig, k + 1, result@, kk) by {
                                    assert(kept_rel_upto(orig, k, res0, kk));
                                    assert(kept_index_upto(orig, k + 1, kk) == kept_index_upto(
                                        orig,
                                        k,
                                        kk,
                                    ));
                                    let i = kept_index_upto(orig, k, kk);
                                    if kk != idx {
                                        assert(result@[kk] == res0[kk]);
                                        if decl_name(orig[i]) is Some {
                                            if kk < idx {
                                                lemma_kept_index_mono(orig, k, kk, idx as int);
                                            } else {
                                                lemma_kept_index_mono(orig, k, idx as int, kk);
                                            }
                                            if decl_name(orig[i]) == Some(qname@) {
                                                if i < i_idx {
                                                    assert(is_dup_at(orig, i_idx));
                                                } else {
                                                    assert(is_dup_at(orig, i));
                                                }
                                                assert(false);
                                            }
                                            assert(dups_of(orig, i, k + 1) =~= dups_of(
                                                orig,
                                                i,
                                                k,
                                            ));
                                        }
                                    } else {
                                        assert(decl_name(merged) == Some(qname@));
                                        assert(res0[idx as int] is Class || res0[idx as int]
                                            is Module);
                                        assert(decl_name(orig[k]) == decl_name(orig[i_idx]));
                                        assert(dups_of(orig, i_idx, k + 1) =~= dups_of(
                                            orig,
                                            i_idx,
                                            k,
                                        ).push(orig[k]));
                                        let start0 = choose|start: Seq<Node>|
                                            #[trigger] shallow_stmts_rel(
                                                normalized_stmts(orig[i_idx]),
                                                start,
                                            ) && merged_body_rel(
                                                start,
                                                dups_of(orig, i_idx, k),
                                                normalized_stmts(res0[idx as int]),
                                            );
                                        assert(appended_once(
                                            normalized_stmts(res0[idx as int]),
                                            orig[k],
                                            normalized_stmts(merged),
                                        ));
                                        lemma_merged_body_extend(
                                            start0,
                                            dups_of(orig, i_idx, k),
                                            normalized_stmts(res0[idx as int]),
                                            orig[k],
                                            normalized_stmts(merged),
                                        );
                                        assert(shallow_stmts_rel(
                                            normalized_stmts(orig[i_idx]),
                                            start0,
                                        ) && merged_body_rel(
                                            start0,
                                            dups_of(orig, i_idx, k + 1),
                                            normalized_stmts(result@[kk]),
                                        ));
                                    }
                                }
                                assert forall|j: int| 0 <= j < seen@.len() implies
                                    #[trigger] seen_ok(orig, k + 1, result@, seen@[j]) by {
                                    assert(seen_ok(orig, k, res0, seen@[j]));
                                    if seen@[j].1 == idx {
                                        assert(decl_name(result@[idx as int]) == decl_name(
                                            res0[idx as int],
                                        ));
                                    } else {
                                        assert(result@[seen@[j].1 as int] == res0[seen@[j].1 as int]);
                                    }
                                }
                                assert forall|i: int|
                                    0 <= i < k + 1 && (#[trigger] decl_name(orig[i])) is Some
                                        implies exists|j: int|
                                        0 <= j < seen@.len() && (#[trigger] seen@[j]).0@
                                            == decl_name(orig[i])->Some_0 by {
                                    if i == k {
                                        let j = choose|j: int|
                                            0 <= j < seen@.len() && (#[trigger] seen@[j]).1 == idx
                                                && seen@[j].0@ == qname@;
                                        assert(seen@[j].0@ == decl_name(orig[i])->Some_0);
                                    }
                                }
                            }
                        },
                        None => {
                            proof {
                                assert(st == orig[k]);
                                assert(decreases_to!(orig => orig[k]));
                                assert forall|i: int|
                                    0 <= i < k implies #[trigger] decl_name(orig[i]) != Some(
                                    qname@,
                                ) by {
                                    if decl_name(orig[i]) == Some(qname@) {
                                        assert(decl_name(orig[i]) is Some);
                                        let j = choose|j: int|
                                            0 <= j < seen@.len() && (#[trigger] seen@[j]).0@
                                                == decl_name(orig[i])->Some_0;
                                        assert(seen@[j].0@ == qname@);
                                    }
                                }
                                assert(!is_dup_at(orig, k));
                                assert(kept_count_upto(orig, k + 1) == kept_count_upto(orig, k)
                                    + 1);
                            }
                            let combined = combine_single(st);
                            let ghost seen0 = seen@;
                            seen.push((qname, result.len()));
                            let ghost res0 = result@;
                            result.push(combined);
                            proof {
                                assert(result@ == res0.push(result@.last()));
                                assert forall|kk: int| 0 <= kk < result@.len() implies
                                    #[trigger] kept_rel_upto(orig, k + 1, result@, kk) by {
                                    if kk < res0.len() {
                                        assert(kept_rel_upto(orig, k, res0, kk));
                                        assert(kept_index_upto(orig, k + 1, kk)
                                            == kept_index_upto(orig, k, kk));
                                        assert(result@[kk] == res0[kk]);
                                    } else {
                                        assert(kept_index_upto(orig, k + 1, kk) == k);
                                    }
                                }
                                assert forall|j: int| 0 <= j < seen@.len() implies
                                    #[trigger] seen_ok(orig, k + 1, result@, seen@[j]) by {
                                    if j < seen@.len() - 1 {
                                        assert(seen@[j] == seen0[j]);
                                        assert(seen_ok(orig, k, res0, seen0[j]));
                                        assert(result@[seen@[j].1 as int] == res0[seen@[j].1 as int]);
                                    } else {
                                        assert(seen@[j].0@ == qname@);
                                        assert(seen@[j].1 == res0.len());
                                        assert(decl_name(result@[seen@[j].1 as int]) == Some(
                                            qname@,
                                        ));
                                        assert(decl_name(orig[k]) == Some(qname@));
                                    }
                                }
                                assert forall|i: int|
                                    0 <= i < k + 1 && (#[trigger] decl_name(orig[i])) is Some
                                        implies exists|j: int|
                                        0 <= j < seen@.len() && (#[trigger] seen@[j]).0@
                                            == decl_name(orig[i])->Some_0 by {
                                    if i == k {
                                        assert(seen@[seen@.len() - 1].0@ == decl_name(
                                            orig[i],
                                        )->Some_0);
                                    } else {
                                        let j0 = choose|j0: int|
                                            0 <= j0 < seen0.len() && (#[trigger] seen0[j0]).0@
                                                == decl_name(orig[i])->Some_0;
                                        assert(seen@[j0] == seen0[j0]);
                                        assert(seen@[j0].0@ == decl_name(orig[i])->Some_0);
                                    }
                                }
                            }
                        },
                    }
                },
                None => {
                    proof {
                        assert(decl_name(st) is None);
                        assert(!is_dup_at(orig, k));
                    }
                    let ghost res0 = result@;
                    result.push(st);
                    proof {
                        assert forall|kk: int| 0 <= kk < result@.len() implies
                            #[trigger] kept_rel_upto(orig, k + 1, result@, kk) by {
                            if kk < res0.len() {
                                assert(kept_rel_upto(orig, k, res0, kk));
                                assert(kept_index_upto(orig, k + 1, kk) == kept_index_upto(
                                    orig,
                                    k,
                                    kk,
                                ));
                                assert(result@[kk] == res0[kk]);
                            } else {
                                assert(kept_index_upto(orig, k + 1, kk) == k);
                                assert(result@[kk] == orig[k]);
                            }
                        }
                        assert forall|j: int| 0 <= j < seen@.len() implies #[trigger] seen_ok(
                            orig,
                            k + 1,
                            result@,
                            seen@[j],
                        ) by {
                            assert(seen_ok(orig, k, res0, seen@[j]));
                        }
                    }
                },
            }
        } else {
            proof {
                assert(decl_name(st) is None);
                assert(!is_dup_at(orig, k));
            }
            let ghost res0 = result@;
            result.push(st);
            proof {
                assert forall|kk: int| 0 <= kk < result@.len() implies #[trigger] kept_rel_upto(
                    orig,
                    k + 1,
                    result@,
                    kk,
                ) by {
                    if kk < res0.len() {
                        assert(kept_rel_upto(orig, k, res0, kk));
                        assert(kept_index_upto(orig, k + 1, kk) == kept_index_upto(orig, k, kk));
                        assert(result@[kk] == res0[kk]);
                    } else {
                        assert(kept_index_upto(orig, k + 1, kk) == k);
                        assert(result@[kk] == orig[k]);
                    }
                }
                assert forall|j: int| 0 <= j < seen@.len() implies #[trigger] seen_ok(
                    orig,
                    k + 1,
                    result@,
                    seen@[j],
                ) by {
                    assert(seen_ok(orig, k, res0, seen@[j]));
                }
            }
        }
    }
    result
}

/// The index remembered for a qualified name, if any.
fn find_seen(seen: &Vec<(String, usize)>, qname: &String) -> (out: Option<usize>)
    ensures
        match out {
            Some(idx) => exists|j: int|
                0 <= j < seen@.len() && (#[trigger] seen@[j]).1 == idx && seen@[j].0@ == qname@,
            None => forall|j: int| 0 <= j < seen@.len() ==> (#[trigger] seen@[j]).0@ != qname@,
        },
{
    let n = seen.len();
    let mut i: usize = 0;
    while i < n
        invariant
            n == seen@.len(),
            i <= n,
            forall|j: int| 0 <= j < i ==> (#[trigger] seen@[j]).0@ != qname@,
        decreases n - i,
    {
        if crate::code_writer::string_eq_literal(&seen[i].0, qname.as_str()) {
            return Some(seen[i].1);
        }
        i = i + 1;
    }
    None
}

/// Appends the duplicate declaration's normalized body onto the remembered
/// declaration. A remembered node without the expected shape is returned
/// unchanged, and the duplicate's contents are then dropped.
fn merge_into(existing: Node, duplicate: Node) -> (out: Node)
    ensures
        !(existing is Class || existing is Module) ==> out == existing,
        existing is Class ==> out is Class && has_normalized_body(out),
        existing is Module ==> out is Module && has_normalized_body(out),
        decl_name(out) == decl_name(existing),
        superclass_of(out) == superclass_of(existing),
        (existing is Class || existing is Module) && has_normalized_body(existing)
            ==> appended_once(normalized_stmts(existing), duplicate, normalized_stmts(out)),
    decreases duplicate, 1int,
{
    let dup_body = match duplicate {
        Node::Class { body, .. } => body,
        Node::Module { body, .. } => body,
        _ => None,
    };
    let normalized = normalize_children(dup_body);
    let new_statements = match *normalized {
        Node::Begin { statements, .. } => statements,
        _ => Vec::new(),
    };
    match existing {
        Node::Class { name, superclass, body } => {
            let nb = normalize_children(body);
            match *nb {
                Node::Begin { statements, begin_l, end_l } => {
                    let mut merged = statements;
                    combine_bodies(&mut merged, new_statements);
                    Node::Class {
                        name,
                        superclass,
                        body: Some(
                            Box::new(Node::Begin { statements: merged, begin_l, end_l }),
                        ),
                    }
                },
                _ => {
                    proof {
                        assert(false);
                    }
                    unreached()
                },
            }
        },
        Node::Module { name, body } => {
            let nb = normalize_children(body);
            match *nb {
                Node::Begin { statements, begin_l, end_l } => {
                    let mut merged = statements;
                    combine_bodies(&mut merged, new_statements);
                    Node::Module {
                        name,
                        body: Some(
                            Box::new(Node::Begin { statements: merged, begin_l, end_l }),
                        ),
                    }
                },
                _ => {
                    proof {
                        assert(false);
                    }
                    unreached()
                },
            }
        },
        other => other,
    }
}

} // verus!
