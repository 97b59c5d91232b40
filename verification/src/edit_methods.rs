use vstd::prelude::*;

use crate::ast::Node;

verus! {

broadcast use vstd::seq_lib::group_seq_properties;

/// The canonical short-alphabet name pool: one-letter aliases, assigned in
/// order of first appearance within a scope.
pub open spec fn alphabet() -> Seq<char> {
    "abcdefghijklmnopqrstuvwxyz"@
}

/// The alias that the next fresh name receives when `len` names were already
/// assigned in the scope: the next unused letter, or the empty marker once
/// the pool of twenty-six letters is exhausted (an exhausted name then stays
/// unrenamed everywhere).
pub open spec fn next_alias(len: nat) -> Seq<char> {
    if len < 26 {
        seq![alphabet()[len as int]]
    } else {
        Seq::empty()
    }
}

/// A per-scope rename table: the original local names in order of first
/// appearance, each with its assigned alias (the empty alias marks a name
/// that keeps its original spelling).
pub struct RenameTable {
    pub entries: Vec<(String, String)>,
}

/// The alias recorded for a name, if any.
pub open spec fn spec_lookup(t: Seq<(String, String)>, name: Seq<char>) -> Option<Seq<char>>
    decreases t.len(),
{
    if t.len() == 0 {
        None
    } else if t[0].0@ == name {
        Some(t[0].1@)
    } else {
        spec_lookup(t.drop_first(), name)
    }
}

/// The spelling a local name resolves to against a table, leaving the
/// table out of it: a known name answers with its alias (or itself where
/// the alias is the empty exhaustion marker); an unknown name receives the
/// next unused letter, or stays itself once the pool is exhausted.
pub open spec fn resolved_name(t: Seq<(String, String)>, name: Seq<char>) -> Seq<char> {
    match spec_lookup(t, name) {
        Some(alias) => if alias.len() == 0 {
            name
        } else {
            alias
        },
        None => if t.len() < 26 {
            next_alias(t.len())
        } else {
            name
        },
    }
}

/// How the table changes when one name is resolved: not at all for a known
/// name, and by exactly one entry for that name otherwise.
pub open spec fn table_extended(
    t: Seq<(String, String)>,
    name: Seq<char>,
    t2: Seq<(String, String)>,
) -> bool {
    match spec_lookup(t, name) {
        Some(alias) => t2 == t,
        None => {
            &&& t2.len() == t.len() + 1
            &&& t2.drop_last() == t
            &&& t2.last().0@ == name
            &&& t2.last().1@ == next_alias(t.len())
        },
    }
}

/// How one parameter node relates to its renamed form, between two table
/// states: a named parameter's name resolves through the table, which may
/// grow by exactly that name; a nameless parameter passes through with the
/// table untouched. A parameter carrying a default expression pins its
/// name; the table afterwards also reflects the walk of that default, so
/// only the name is fixed here.
pub open spec fn arg_item_renamed(
    t0: Seq<(String, String)>,
    a: Node,
    t1: Seq<(String, String)>,
    b: Node,
) -> bool {
    &&& b.spec_kind() == a.spec_kind()
    &&& (match a {
        Node::Arg { name } => b matches Node::Arg { name: n2 } && n2@ == resolved_name(t0, name@)
            && table_extended(t0, name@, t1),
        Node::Kwarg { name } => b matches Node::Kwarg { name: n2 } && n2@ == resolved_name(
            t0,
            name@,
        ) && table_extended(t0, name@, t1),
        Node::Shadowarg { name } => b matches Node::Shadowarg { name: n2 } && n2@
            == resolved_name(t0, name@) && table_extended(t0, name@, t1),
        Node::Restarg { name } => match name {
            Some(n) => b matches Node::Restarg { name: Some(n2) } && n2@ == resolved_name(t0, n@)
                && table_extended(t0, n@, t1),
            None => b == a && t1 == t0,
        },
        Node::Kwrestarg { name } => match name {
            Some(n) => b matches Node::Kwrestarg { name: Some(n2) } && n2@ == resolved_name(
                t0,
                n@,
            ) && table_extended(t0, n@, t1),
            None => b == a && t1 == t0,
        },
        Node::Blockarg { name } => match name {
            Some(n) => b matches Node::Blockarg { name: Some(n2) } && n2@ == resolved_name(t0, n@)
                && table_extended(t0, n@, t1),
            None => b == a && t1 == t0,
        },
        Node::Optarg { name, .. } => b matches Node::Optarg { name: n2, .. } && n2@
            == resolved_name(t0, name@),
        Node::Kwoptarg { name, .. } => b matches Node::Kwoptarg { name: n2, .. } && n2@
            == resolved_name(t0, name@),
        _ => b == a && t1 == t0,
    })
}

/// A whole parameter list renamed left to right through one evolving table.
pub open spec fn args_renamed(
    t0: Seq<(String, String)>,
    inlist: Seq<Node>,
    t1: Seq<(String, String)>,
    outlist: Seq<Node>,
) -> bool
    decreases inlist.len(),
{
    if inlist.len() == 0 {
        outlist.len() == 0 && t1 == t0
    } else {
        outlist.len() == inlist.len() && exists|tm: Seq<(String, String)>|
            args_renamed(t0, inlist.drop_last(), tm, outlist.drop_last()) && #[trigger] arg_item_renamed(
                tm,
                inlist.last(),
                t1,
                outlist.last(),
            )
    }
}

/// One parameter list renamed through one evolving table that ends at
/// `t1`: the fold above, under a non-recursive name so that quantifiers can
/// pivot on it.
pub open spec fn list_renamed(
    t0: Seq<(String, String)>,
    inlist: Seq<Node>,
    t1: Seq<(String, String)>,
    outlist: Seq<Node>,
) -> bool {
    args_renamed(t0, inlist, t1, outlist)
}

/// The parameter list a definition or block carries, where it has one.
pub open spec fn params_of(n: Node) -> Option<Seq<Node>> {
    match n {
        Node::Def { args, .. } => match args {
            Some(a) => match *a {
                Node::Args { args: list } => Some(list@),
                _ => None,
            },
            None => None,
        },
        Node::Defs { args, .. } => match args {
            Some(a) => match *a {
                Node::Args { args: list } => Some(list@),
                _ => None,
            },
            None => None,
        },
        Node::Block { args, .. } => match args {
            Some(a) => match *a {
                Node::Args { args: list } => Some(list@),
                _ => None,
            },
            None => None,
        },
        _ => None,
    }
}

/// The output's parameters are exactly the input's, renamed through a table
/// seeded as given.
pub open spec fn params_renamed(seed: Seq<(String, String)>, node: Node, out: Node) -> bool {
    params_of(node) is Some ==> {
        &&& params_of(out) is Some
        &&& exists|t1: Seq<(String, String)>|
            #[trigger] list_renamed(seed, params_of(node)->Some_0, t1, params_of(out)->Some_0)
    }
}

impl RenameTable {
    pub fn new() -> (out: RenameTable)
        ensures
            out.entries@ == Seq::<(String, String)>::empty(),
    {
        RenameTable { entries: Vec::new() }
    }

    /// An independent copy, so that a block can extend or shadow its
    /// enclosing scope's names without altering the outer table.
    pub fn duplicate(&self) -> (out: RenameTable)
        ensures
            out.entries@ == self.entries@,
    {
        let mut entries: Vec<(String, String)> = Vec::new();
        let n = self.entries.len();
        let mut i: usize = 0;
        while i < n
            invariant
                n == self.entries@.len(),
                i <= n,
                entries@ == self.entries@.take(i as int),
            decreases n - i,
        {
            let key = self.entries[i].0.clone();
            let val = self.entries[i].1.clone();
            entries.push((key, val));
            proof {
                assert(self.entries@.take(i + 1) =~= self.entries@.take(i as int).push(
                    self.entries@[i as int],
                ));
            }
            i = i + 1;
        }
        proof {
            assert(self.entries@.take(n as int) =~= self.entries@);
        }
        RenameTable { entries }
    }
}

/// The letter at one position of the name pool.
fn nth_letter(i: usize) -> (out: String)
    requires
        i < 26,
    ensures
        out@ == seq![alphabet()[i as int]],
{
    let letters = "abcdefghijklmnopqrstuvwxyz";
    proof {
        reveal_strlit("abcdefghijklmnopqrstuvwxyz");
    }
    let ch = letters.get_char(i);
    let mut out = String::new();
    crate::code_writer::push_char(&mut out, ch);
    out
}

/// Resolves a local name through the table: a known name answers with its
/// recorded alias (or with itself where the recorded alias is the empty
/// exhaustion marker); an unknown name is assigned the next unused letter —
/// or, past the twenty-sixth name, recorded with the empty marker and left
/// unrenamed.
pub fn resolve_or_assign_arg(table: &mut RenameTable, arg: &String) -> (out: String)
    ensures
        out@ == resolved_name(old(table).entries@, arg@),
        table_extended(old(table).entries@, arg@, final(table).entries@),
        match spec_lookup(old(table).entries@, arg@) {
            Some(alias) => {
                &&& final(table).entries@ == old(table).entries@
                &&& (alias.len() == 0 ==> out@ == arg@)
                &&& (alias.len() > 0 ==> out@ == alias)
            },
            None => {
                &&& final(table).entries@.len() == old(table).entries@.len() + 1
                &&& final(table).entries@.drop_last() == old(table).entries@
                &&& final(table).entries@.last().0@ == arg@
                &&& final(table).entries@.last().1@ == next_alias(old(table).entries@.len())
                &&& out@ == (if old(table).entries@.len() < 26 {
                    next_alias(old(table).entries@.len())
                } else {
                    arg@
                })
            },
        },
{
    let n = table.entries.len();
    let mut i: usize = 0;
    proof {
        assert(table.entries@.skip(0) =~= table.entries@);
    }
    while i < n
        invariant
            n == table.entries@.len(),
            i <= n,
            table == old(table),
            spec_lookup(table.entries@.skip(i as int), arg@) == spec_lookup(
                table.entries@,
                arg@,
            ),
        decreases n - i,
    {
        let hit = crate::code_writer::string_eq_literal(&table.entries[i].0, arg.as_str());
        proof {
            assert(table.entries@.skip(i as int)[0] == table.entries@[i as int]);
            assert(table.entries@.skip(i as int).drop_first() =~= table.entries@.skip(
                i as int + 1,
            ));
        }
        if hit {
            let empty_alias = table.entries[i].1.as_str().unicode_len() == 0;
            if empty_alias {
                return arg.clone();
            } else {
                return table.entries[i].1.clone();
            }
        }
        i = i + 1;
    }
    proof {
        assert(table.entries@.skip(n as int) =~= Seq::<(String, String)>::empty());
    }
    let len = table.entries.len();
    let fresh: String = if len < 26 {
        nth_letter(len)
    } else {
        String::new()
    };
    let out: String = if len < 26 {
        fresh.clone()
    } else {
        arg.clone()
    };
    table.entries.push((arg.clone(), fresh));
    proof {
        assert(table.entries@.drop_last() =~= old(table).entries@);
    }
    out
}

/// Replacing the first entry holding a name rebinds exactly that name.
proof fn lemma_table_update(
    before: Seq<(String, String)>,
    after: Seq<(String, String)>,
    i: int,
    name: Seq<char>,
    alias: Seq<char>,
)
    requires
        0 <= i < before.len(),
        after.len() == before.len(),
        after[i].0@ == name,
        after[i].1@ == alias,
        forall|j: int| 0 <= j < before.len() && j != i ==> after[j] == before[j],
        forall|j: int| 0 <= j < i ==> (#[trigger] before[j]).0@ != name,
        before[i].0@ == name,
    ensures
        spec_lookup(after, name) == Some(alias),
        forall|k2: Seq<char>|
            k2 != name ==> #[trigger] spec_lookup(after, k2) == spec_lookup(before, k2),
    decreases before.len(),
{
    if i == 0 {
        assert forall|k2: Seq<char>| k2 != name implies #[trigger] spec_lookup(after, k2)
            == spec_lookup(before, k2) by {
            assert(after.drop_first() =~= before.drop_first());
        }
    } else {
        lemma_table_update(before.drop_first(), after.drop_first(), i - 1, name, alias);
        assert(after[0] == before[0]);
        assert forall|k2: Seq<char>| k2 != name implies #[trigger] spec_lookup(after, k2)
            == spec_lookup(before, k2) by {
            if before[0].0@ != k2 {
                assert(spec_lookup(before, k2) == spec_lookup(before.drop_first(), k2));
                assert(spec_lookup(after, k2) == spec_lookup(after.drop_first(), k2));
            }
        }
        assert(spec_lookup(after, name) == spec_lookup(after.drop_first(), name));
    }
}

/// Appending an entry under a fresh name binds that name and nothing else.
proof fn lemma_table_append(
    before: Seq<(String, String)>,
    after: Seq<(String, String)>,
    name: Seq<char>,
    alias: Seq<char>,
)
    requires
        after == before.push(after.last()),
        after.last().0@ == name,
        after.last().1@ == alias,
        forall|j: int| 0 <= j < before.len() ==> (#[trigger] before[j]).0@ != name,
    ensures
        spec_lookup(after, name) == Some(alias),
        forall|k2: Seq<char>|
            k2 != name ==> #[trigger] spec_lookup(after, k2) == spec_lookup(before, k2),
    decreases before.len(),
{
    if before.len() == 0 {
        assert(after.len() == 1);
        assert forall|k2: Seq<char>| k2 != name implies #[trigger] spec_lookup(after, k2)
            == spec_lookup(before, k2) by {
            assert(after[0].0@ == name);
            assert(after.drop_first() =~= Seq::<(String, String)>::empty());
        }
    } else {
        lemma_table_append(before.drop_first(), after.drop_first(), name, alias);
        assert(after.drop_first() =~= before.drop_first().push(after.last()));
        assert(after[0] == before[0]);
        assert(after[0].0@ != name);
        assert(spec_lookup(after, name) == spec_lookup(after.drop_first(), name));
        assert forall|k2: Seq<char>| k2 != name implies #[trigger] spec_lookup(after, k2)
            == spec_lookup(before, k2) by {
            if before[0].0@ != k2 {
                assert(spec_lookup(before, k2) == spec_lookup(before.drop_first(), k2));
                assert(spec_lookup(after, k2) == spec_lookup(after.drop_first(), k2));
            }
        }
    }
}

/// Records a pattern binder as present but deliberately unrenamed: the name
/// is bound to the empty alias — overwriting any letter it held — so every
/// later occurrence keeps the original spelling. Other names are untouched.
fn register_unrenamed(table: &mut RenameTable, name: &String)
    ensures
        spec_lookup(final(table).entries@, name@) == Some(Seq::<char>::empty()),
        forall|k2: Seq<char>|
            k2 != name@ ==> #[trigger] spec_lookup(final(table).entries@, k2) == spec_lookup(
                old(table).entries@,
                k2,
            ),
{
    let n = table.entries.len();
    let mut i: usize = 0;
    while i < n
        invariant
            n == table.entries@.len(),
            i <= n,
            table == old(table),
            forall|j: int| 0 <= j < i ==> (#[trigger] table.entries@[j]).0@ != name@,
        decreases n - i,
    {
        if crate::code_writer::string_eq_literal(&table.entries[i].0, name.as_str()) {
            let ghost before = table.entries@;
            table.entries.set(i, (name.clone(), String::new()));
            proof {
                lemma_table_update(
                    before,
                    table.entries@,
                    i as int,
                    name@,
                    Seq::<char>::empty(),
                );
            }
            return ;
        }
        i = i + 1;
    }
    let ghost before = table.entries@;
    table.entries.push((name.clone(), String::new()));
    proof {
        lemma_table_append(before, table.entries@, name@, Seq::<char>::empty());
    }
}

/// Rewrites every local-variable and parameter name in the tree to the
/// canonical short alphabet, scope by scope: each method body gets a fresh
/// table, each block a copy of its enclosing scope's table.
pub fn edit_methods(node: Node) -> (out: Node)
    ensures
        out.spec_kind() == node.spec_kind(),
        node matches Node::Lvar { name } ==> out matches Node::Lvar { name: n2 } && n2@
            == resolved_name(Seq::<(String, String)>::empty(), name@),
        node matches Node::Def { args: Some(a), body: Some(b), .. } ==> params_renamed(
            Seq::empty(),
            node,
            out,
        ),
        node is Defs ==> params_renamed(Seq::empty(), node, out),
{
    let mut table = RenameTable::new();
    edit_node(&mut table, node)
}

/// One optional child, rewritten in place of the original.
fn edit_opt(table: &mut RenameTable, child: Option<Box<Node>>) -> (out: Option<Box<Node>>)
    ensures
        child is Some <==> out is Some,
    decreases child, 0int,
{
    match child {
        Some(b) => Some(Box::new(edit_node(table, *b))),
        None => None,
    }
}

/// One child sequence, each element rewritten in place.
fn edit_vec(table: &mut RenameTable, nodes: Vec<Node>, Ghost(m): Ghost<Seq<Node>>) -> (out: Vec<
    Node,
>)
    requires
        nodes@ == m,
    ensures
        out@.len() == nodes@.len(),
        forall|i: int|
            0 <= i < out@.len() ==> (#[trigger] out@[i]).spec_kind() == nodes@[i].spec_kind(),
    decreases m, 0int,
{
    let ghost orig = nodes@;
    let mut rest = nodes;
    let mut out: Vec<Node> = Vec::new();
    proof {
        assert(orig.skip(0) =~= orig);
        assert(0 <= 0 <= orig.len() && rest@ == orig.skip(0) && 0 + rest@.len() == orig.len());
    }
    while rest.len() > 0
        invariant
            orig == m,
            out@.len() + rest@.len() == orig.len(),
            forall|i: int|
                0 <= i < out@.len() ==> (#[trigger] out@[i]).spec_kind() == orig[i].spec_kind(),
            exists|k: int|
                0 <= k <= orig.len() && rest@ == orig.skip(k) && k + rest@.len() == orig.len(),
        decreases rest@.len(),
    {
        let ghost k = choose|k: int|
            0 <= k <= orig.len() && rest@ == orig.skip(k) && k + rest@.len() == orig.len();
        let st = rest.remove(0);
        proof {
            assert(st == orig[k]);
            assert(rest@ =~= orig.skip(k + 1));
            assert(decreases_to!(orig => orig[k]));
            assert(0 <= k + 1 <= orig.len() && rest@ == orig.skip(k + 1) && k + 1 + rest@.len()
                == orig.len());
        }
        let edited = edit_node(table, st);
        out.push(edited);
    }
    out
}

/// One parameter-list sequence: parameter names are assigned fresh aliases,
/// and default-value expressions are rewritten under the same table.
fn edit_args(table: &mut RenameTable, args: Vec<Node>, Ghost(m): Ghost<Seq<Node>>) -> (out: Vec<
    Node,
>)
    requires
        args@ == m,
    ensures
        out@.len() == args@.len(),
        forall|i: int|
            0 <= i < out@.len() ==> (#[trigger] out@[i]).spec_kind() == args@[i].spec_kind(),
        list_renamed(old(table).entries@, args@, final(table).entries@, out@),
    decreases m, 0int,
{
    let ghost orig = args@;
    let ghost t_start = table.entries@;
    let mut rest = args;
    let mut out: Vec<Node> = Vec::new();
    proof {
        assert(orig.skip(0) =~= orig);
        assert(0 <= 0 <= orig.len() && rest@ == orig.skip(0) && 0 + rest@.len() == orig.len());
        assert(args_renamed(t_start, orig.take(0), table.entries@, out@));
    }
    while rest.len() > 0
        invariant
            orig == m,
            out@.len() + rest@.len() == orig.len(),
            forall|i: int|
                0 <= i < out@.len() ==> (#[trigger] out@[i]).spec_kind() == orig[i].spec_kind(),
            exists|k: int|
                0 <= k <= orig.len() && rest@ == orig.skip(k) && k + rest@.len() == orig.len(),
            args_renamed(t_start, orig.take(out@.len() as int), table.entries@, out@),
        decreases rest@.len(),
    {
        let ghost k = choose|k: int|
            0 <= k <= orig.len() && rest@ == orig.skip(k) && k + rest@.len() == orig.len();
        let st = rest.remove(0);
        proof {
            assert(st == orig[k]);
            assert(rest@ =~= orig.skip(k + 1));
            assert(decreases_to!(orig => orig[k]));
            assert(0 <= k + 1 <= orig.len() && rest@ == orig.skip(k + 1) && k + 1 + rest@.len()
                == orig.len());
        }
        let ghost tm = table.entries@;
        let ghost out0 = out@;
        let edited = edit_arg_item(table, st);
        out.push(edited);
        proof {
            assert(orig.take(k + 1).drop_last() =~= orig.take(k));
            assert(orig.take(k + 1).last() == orig[k]);
            assert(out@.drop_last() =~= out0);
            assert(out@.last() == edited);
            assert(args_renamed(t_start, orig.take(k), tm, out0) && arg_item_renamed(
                tm,
                orig.take(k + 1).last(),
                table.entries@,
                out@.last(),
            ));
        }
    }
    proof {
        assert(orig.take(orig.len() as int) =~= orig);
    }
    out
}

/// One parameter node: assigns or reuses an alias for its name; any default
/// value is rewritten under the same table. Parameter kinds without a name
/// pass through unchanged.
fn edit_arg_item(table: &mut RenameTable, st: Node) -> (out: Node)
    ensures
        out.spec_kind() == st.spec_kind(),
        st matches Node::Arg { name } ==> out matches Node::Arg { name: n2 } && n2@
            == resolved_name(old(table).entries@, name@),
        st matches Node::Kwarg { name } ==> out matches Node::Kwarg { name: n2 } && n2@
            == resolved_name(old(table).entries@, name@),
        st matches Node::Shadowarg { name } ==> out matches Node::Shadowarg { name: n2 } && n2@
            == resolved_name(old(table).entries@, name@),
        st matches Node::Optarg { name, .. } ==> out matches Node::Optarg { name: n2, .. } && n2@
            == resolved_name(old(table).entries@, name@),
        st matches Node::Kwoptarg { name, .. } ==> out matches Node::Kwoptarg { name: n2, .. }
            && n2@ == resolved_name(old(table).entries@, name@),
        st matches Node::Restarg { name: Some(n) } ==> out matches Node::Restarg {
            name: Some(n2) } && n2@ == resolved_name(old(table).entries@, n@),
        st matches Node::Kwrestarg { name: Some(n) } ==> out matches Node::Kwrestarg {
            name: Some(n2) } && n2@ == resolved_name(old(table).entries@, n@),
        st matches Node::Blockarg { name: Some(n) } ==> out matches Node::Blockarg {
            name: Some(n2) } && n2@ == resolved_name(old(table).entries@, n@),
        arg_item_renamed(old(table).entries@, st, final(table).entries@, out),
    decreases st, 0int,
{
    match st {
        Node::Arg { name } => {
            let name = resolve_or_assign_arg(table, &name);
            Node::Arg { name }
        },
        Node::Kwarg { name } => {
            let name = resolve_or_assign_arg(table, &name);
            Node::Kwarg { name }
        },
        Node::Shadowarg { name } => {
            let name = resolve_or_assign_arg(table, &name);
            Node::Shadowarg { name }
        },
        Node::Optarg { name, default } => {
            let name = resolve_or_assign_arg(table, &name);
            let default = Box::new(edit_node(table, *default));
            Node::Optarg { name, default }
        },
        Node::Kwoptarg { name, default } => {
            let name = resolve_or_assign_arg(table, &name);
            let default = Box::new(edit_node(table, *default));
            Node::Kwoptarg { name, default }
        },
        Node::Restarg { name } => match name {
            Some(n) => {
                let renamed = resolve_or_assign_arg(table, &n);
                Node::Restarg { name: Some(renamed) }
            },
            None => Node::Restarg { name: None },
        },
        Node::Kwrestarg { name } => match name {
            Some(n) => {
                let renamed = resolve_or_assign_arg(table, &n);
                Node::Kwrestarg { name: Some(renamed) }
            },
            None => Node::Kwrestarg { name: None },
        },
        Node::Blockarg { name } => match name {
            Some(n) => {
                let renamed = resolve_or_assign_arg(table, &n);
                Node::Blockarg { name: Some(renamed) }
            },
            None => Node::Blockarg { name: None },
        },
        other => other,
    }
}

/// The recursive rewrite. Local-variable reads and writes resolve through
/// the table; method definitions start a fresh scope; a block inherits a
/// copy of the enclosing table. Pattern-match binders register their name
/// without receiving a letter alias, so they keep their original spelling —
/// deliberately left that way. The dispatch is split over three slice
/// functions purely to keep each verification unit small.
pub fn edit_node(table: &mut RenameTable, node: Node) -> (out: Node)
    ensures
        out.spec_kind() == node.spec_kind(),
        node matches Node::Lvar { name } ==> {
            &&& out matches Node::Lvar { name: n2 } && n2@ == resolved_name(
                old(table).entries@,
                name@,
            )
            &&& table_extended(old(table).entries@, name@, final(table).entries@)
        },
        node matches Node::Lvasgn { name, .. } ==> out matches Node::Lvasgn { name: n2, .. }
            && n2@ == resolved_name(old(table).entries@, name@),
        node matches Node::Def { args: Some(a), body: Some(b), .. } ==> params_renamed(
            Seq::empty(),
            node,
            out,
        ),
        node is Defs ==> params_renamed(Seq::empty(), node, out),
        node is Block ==> exists|seed: Seq<(String, String)>|
            #[trigger] params_renamed(seed, node, out),
    decreases node, 2int,
{
    let group: u8 = match &node {
        Node::And { .. } | Node::AndAsgn { .. } | Node::Array { .. } | Node::ArrayPattern { .. } | Node::ArrayPatternWithTail { .. } | Node::Begin { .. } | Node::BlockPass { .. } | Node::Break { .. } | Node::Case { .. } | Node::CaseMatch { .. } | Node::Class { .. } | Node::ConstPattern { .. } | Node::CSend { .. } | Node::Cvasgn { .. } | Node::Dstr { .. } | Node::Dsym { .. } | Node::EFlipFlop { .. } | Node::Ensure { .. } | Node::Erange { .. } | Node::FindPattern { .. } | Node::For { .. } | Node::Gvasgn { .. } | Node::Hash { .. } | Node::HashPattern { .. } | Node::Heredoc { .. } => 1,
        Node::IFlipFlop { .. } | Node::If { .. } | Node::IfGuard { .. } | Node::IfMod { .. } | Node::IfTernary { .. } | Node::Index { .. } | Node::IndexAsgn { .. } | Node::InPattern { .. } | Node::Irange { .. } | Node::Ivasgn { .. } | Node::Kwargs { .. } | Node::KwBegin { .. } | Node::Kwsplat { .. } | Node::Masgn { .. } | Node::MatchAlt { .. } | Node::MatchAs { .. } | Node::MatchCurrentLine { .. } | Node::MatchPattern { .. } | Node::MatchPatternP { .. } | Node::MatchRest { .. } | Node::MatchWithLvasgn { .. } | Node::Mlhs { .. } | Node::Module { .. } | Node::Next { .. } | Node::OpAsgn { .. } | Node::Or { .. } | Node::OrAsgn { .. } => 2,
        Node::Pair { .. } | Node::Pin { .. } | Node::Procarg0 { .. } | Node::Regexp { .. } | Node::Rescue { .. } | Node::Return { .. } | Node::Splat { .. } | Node::Super { .. } | Node::UnlessGuard { .. } | Node::Until { .. } | Node::UntilPost { .. } | Node::When { .. } | Node::While { .. } | Node::WhilePost { .. } | Node::XHeredoc { .. } | Node::Xstr { .. } | Node::Yield { .. } | Node::Lvar { .. } | Node::Lvasgn { .. } | Node::MatchVar { .. } | Node::Send(..) | Node::Block { .. } | Node::Def { .. } | Node::Defs { .. } => 3,
        _ => 0,
    };
    if group == 1 {
        edit_operand_like(table, node)
    } else if group == 2 {
        edit_branch_like(table, node)
    } else if group == 3 {
        edit_binding_like(table, node)
    } else {
        node
    }
}

/// One slice of the renamer's node dispatch, split to keep each
/// verification unit small.
#[verifier::spinoff_prover]
#[verifier::rlimit(100)]
fn edit_operand_like(table: &mut RenameTable, node: Node) -> (out: Node)
    requires
        node is And
            || node is AndAsgn
            || node is Array
            || node is ArrayPattern
            || node is ArrayPatternWithTail
            || node is Begin
            || node is BlockPass
            || node is Break
            || node is Case
            || node is CaseMatch
            || node is Class
            || node is ConstPattern
            || node is CSend
            || node is Cvasgn
            || node is Dstr
            || node is Dsym
            || node is EFlipFlop
            || node is Ensure
            || node is Erange
            || node is FindPattern
            || node is For
            || node is Gvasgn
            || node is Hash
            || node is HashPattern
            || node is Heredoc,
    ensures
        out.spec_kind() == node.spec_kind(),
    decreases node, 1int,
{
    match node {
        Node::And { lhs, rhs } => {
            let lhs = Box::new(edit_node(table, *lhs));
            let rhs = Box::new(edit_node(table, *rhs));
            Node::And { lhs, rhs }
        },
        Node::AndAsgn { recv, value } => {
            let recv = Box::new(edit_node(table, *recv));
            let value = Box::new(edit_node(table, *value));
            Node::AndAsgn { recv, value }
        },
        Node::Array { elements, begin_l, end_l } => {
            let ghost gm = elements@;
            let elements = edit_vec(table, elements, Ghost(gm));
            Node::Array { elements, begin_l, end_l }
        },
        Node::ArrayPattern { elements, begin_l, end_l } => {
            let ghost gm = elements@;
            let elements = edit_vec(table, elements, Ghost(gm));
            Node::ArrayPattern { elements, begin_l, end_l }
        },
        Node::ArrayPatternWithTail { elements, begin_l, end_l } => {
            let ghost gm = elements@;
            let elements = edit_vec(table, elements, Ghost(gm));
            Node::ArrayPatternWithTail { elements, begin_l, end_l }
        },
        Node::Begin { statements, begin_l, end_l } => {
            let ghost gm = statements@;
            let statements = edit_vec(table, statements, Ghost(gm));
            Node::Begin { statements, begin_l, end_l }
        },
        Node::BlockPass { value } => {
            let value = edit_opt(table, value);
            Node::BlockPass { value }
        },
        Node::Break { args } => {
            let ghost gm = args@;
            let args = edit_vec(table, args, Ghost(gm));
            Node::Break { args }
        },
        Node::Case { expr, when_bodies, else_body } => {
            let expr = edit_opt(table, expr);
            let ghost gm = when_bodies@;
            let when_bodies = edit_vec(table, when_bodies, Ghost(gm));
            let else_body = edit_opt(table, else_body);
            Node::Case { expr, when_bodies, else_body }
        },
        Node::CaseMatch { expr, in_bodies, else_body } => {
            let expr = Box::new(edit_node(table, *expr));
            let ghost gm = in_bodies@;
            let in_bodies = edit_vec(table, in_bodies, Ghost(gm));
            let else_body = edit_opt(table, else_body);
            Node::CaseMatch { expr, in_bodies, else_body }
        },
        Node::Class { name, superclass, body } => {
            let superclass = edit_opt(table, superclass);
            let body = edit_opt(table, body);
            Node::Class { name, superclass, body }
        },
        Node::ConstPattern { const_, pattern } => {
            let pattern = Box::new(edit_node(table, *pattern));
            Node::ConstPattern { const_, pattern }
        },
        Node::CSend { recv, method_name, args, begin_l, end_l, operator_l } => {
            let recv = Box::new(edit_node(table, *recv));
            let ghost gm = args@;
            let args = edit_vec(table, args, Ghost(gm));
            Node::CSend { recv, method_name, args, begin_l, end_l, operator_l }
        },
        Node::Cvasgn { name, value } => {
            let value = edit_opt(table, value);
            Node::Cvasgn { name, value }
        },
        Node::Dstr { parts, begin_l } => {
            let ghost gm = parts@;
            let parts = edit_vec(table, parts, Ghost(gm));
            Node::Dstr { parts, begin_l }
        },
        Node::Dsym { parts, begin_l, end_l } => {
            let ghost gm = parts@;
            let parts = edit_vec(table, parts, Ghost(gm));
            Node::Dsym { parts, begin_l, end_l }
        },
        Node::EFlipFlop { left, right } => {
            let left = edit_opt(table, left);
            let right = edit_opt(table, right);
            Node::EFlipFlop { left, right }
        },
        Node::Ensure { body, ensure } => {
            let body = edit_opt(table, body);
            let ensure = edit_opt(table, ensure);
            Node::Ensure { body, ensure }
        },
        Node::Erange { left, right } => {
            let left = edit_opt(table, left);
            let right = edit_opt(table, right);
            Node::Erange { left, right }
        },
        Node::FindPattern { elements, begin_l, end_l } => {
            let ghost gm = elements@;
            let elements = edit_vec(table, elements, Ghost(gm));
            Node::FindPattern { elements, begin_l, end_l }
        },
        Node::For { iterator, iteratee, body } => {
            let iterator = Box::new(edit_node(table, *iterator));
            let iteratee = Box::new(edit_node(table, *iteratee));
            let body = edit_opt(table, body);
            Node::For { iterator, iteratee, body }
        },
        Node::Gvasgn { name, value } => {
            let value = edit_opt(table, value);
            Node::Gvasgn { name, value }
        },
        Node::Hash { pairs, begin_l, end_l } => {
            let ghost gm = pairs@;
            let pairs = edit_vec(table, pairs, Ghost(gm));
            Node::Hash { pairs, begin_l, end_l }
        },
        Node::HashPattern { elements, begin_l, end_l } => {
            let ghost gm = elements@;
            let elements = edit_vec(table, elements, Ghost(gm));
            Node::HashPattern { elements, begin_l, end_l }
        },
        Node::Heredoc { parts } => {
            let ghost gm = parts@;
            let parts = edit_vec(table, parts, Ghost(gm));
            Node::Heredoc { parts }
        },
        _ => {
            proof {
                assert(false);
            }
            unreached()
        },
    }
}

/// One slice of the renamer's node dispatch, split to keep each
/// verification unit small.
#[verifier::spinoff_prover]
#[verifier::rlimit(100)]
fn edit_branch_like(table: &mut RenameTable, node: Node) -> (out: Node)
    requires
        node is IFlipFlop
            || node is If
            || node is IfGuard
            || node is IfMod
            || node is IfTernary
            || node is Index
            || node is IndexAsgn
            || node is InPattern
            || node is Irange
            || node is Ivasgn
            || node is Kwargs
            || node is KwBegin
            || node is Kwsplat
            || node is Masgn
            || node is MatchAlt
            || node is MatchAs
            || node is MatchCurrentLine
            || node is MatchPattern
            || node is MatchPatternP
            || node is MatchRest
            || node is MatchWithLvasgn
            || node is Mlhs
            || node is Module
            || node is Next
            || node is OpAsgn
            || node is Or
            || node is OrAsgn,
    ensures
        out.spec_kind() == node.spec_kind(),
    decreases node, 1int,
{
    match node {
        Node::IFlipFlop { left, right } => {
            let left = edit_opt(table, left);
            let right = edit_opt(table, right);
            Node::IFlipFlop { left, right }
        },
        Node::If { cond, if_true, if_false } => {
            let cond = Box::new(edit_node(table, *cond));
            let if_true = edit_opt(table, if_true);
            let if_false = edit_opt(table, if_false);
            Node::If { cond, if_true, if_false }
        },
        Node::IfGuard { cond } => {
            let cond = Box::new(edit_node(table, *cond));
            Node::IfGuard { cond }
        },
        Node::IfMod { cond, if_true, if_false } => {
            let cond = Box::new(edit_node(table, *cond));
            let if_true = edit_opt(table, if_true);
            let if_false = edit_opt(table, if_false);
            Node::IfMod { cond, if_true, if_false }
        },
        Node::IfTernary { cond, if_true, if_false } => {
            let cond = Box::new(edit_node(table, *cond));
            let if_true = Box::new(edit_node(table, *if_true));
            let if_false = Box::new(edit_node(table, *if_false));
            Node::IfTernary { cond, if_true, if_false }
        },
        Node::Index { recv, indexes } => {
            let recv = Box::new(edit_node(table, *recv));
            let ghost gm = indexes@;
            let indexes = edit_vec(table, indexes, Ghost(gm));
            Node::Index { recv, indexes }
        },
        Node::IndexAsgn { recv, indexes, value } => {
            let recv = Box::new(edit_node(table, *recv));
            let ghost gm = indexes@;
            let indexes = edit_vec(table, indexes, Ghost(gm));
            let value = edit_opt(table, value);
            Node::IndexAsgn { recv, indexes, value }
        },
        Node::InPattern { pattern, guard, body } => {
            let pattern = Box::new(edit_node(table, *pattern));
            let guard = edit_opt(table, guard);
            let body = edit_opt(table, body);
            Node::InPattern { pattern, guard, body }
        },
        Node::Irange { left, right } => {
            let left = edit_opt(table, left);
            let right = edit_opt(table, right);
            Node::Irange { left, right }
        },
        Node::Ivasgn { name, value } => {
            let value = edit_opt(table, value);
            Node::Ivasgn { name, value }
        },
        Node::Kwargs { pairs } => {
            let ghost gm = pairs@;
            let pairs = edit_vec(table, pairs, Ghost(gm));
            Node::Kwargs { pairs }
        },
        Node::KwBegin { statements, begin_l, end_l } => {
            let ghost gm = statements@;
            let statements = edit_vec(table, statements, Ghost(gm));
            Node::KwBegin { statements, begin_l, end_l }
        },
        Node::Kwsplat { value } => {
            let value = Box::new(edit_node(table, *value));
            Node::Kwsplat { value }
        },
        Node::Masgn { lhs, rhs } => {
            let lhs = Box::new(edit_node(table, *lhs));
            let rhs = Box::new(edit_node(table, *rhs));
            Node::Masgn { lhs, rhs }
        },
        Node::MatchAlt { lhs, rhs } => {
            let lhs = Box::new(edit_node(table, *lhs));
            let rhs = Box::new(edit_node(table, *rhs));
            Node::MatchAlt { lhs, rhs }
        },
        Node::MatchAs { value, as_ } => {
            let value = Box::new(edit_node(table, *value));
            let as_ = Box::new(edit_node(table, *as_));
            Node::MatchAs { value, as_ }
        },
        Node::MatchCurrentLine { re } => {
            let re = Box::new(edit_node(table, *re));
            Node::MatchCurrentLine { re }
        },
        Node::MatchPattern { value, pattern } => {
            let value = Box::new(edit_node(table, *value));
            let pattern = Box::new(edit_node(table, *pattern));
            Node::MatchPattern { value, pattern }
        },
        Node::MatchPatternP { value, pattern } => {
            let value = Box::new(edit_node(table, *value));
            let pattern = Box::new(edit_node(table, *pattern));
            Node::MatchPatternP { value, pattern }
        },
        Node::MatchRest { name } => {
            let name = edit_opt(table, name);
            Node::MatchRest { name }
        },
        Node::MatchWithLvasgn { re, value } => {
            let re = Box::new(edit_node(table, *re));
            let value = Box::new(edit_node(table, *value));
            Node::MatchWithLvasgn { re, value }
        },
        Node::Mlhs { items, begin_l, end_l } => {
            let ghost gm = items@;
            let items = edit_vec(table, items, Ghost(gm));
            Node::Mlhs { items, begin_l, end_l }
        },
        Node::Module { name, body } => {
            let body = edit_opt(table, body);
            Node::Module { name, body }
        },
        Node::Next { args } => {
            let ghost gm = args@;
            let args = edit_vec(table, args, Ghost(gm));
            Node::Next { args }
        },
        Node::OpAsgn { recv, operator, value } => {
            let recv = Box::new(edit_node(table, *recv));
            let value = Box::new(edit_node(table, *value));
            Node::OpAsgn { recv, operator, value }
        },
        Node::Or { lhs, rhs } => {
            let lhs = Box::new(edit_node(table, *lhs));
            let rhs = Box::new(edit_node(table, *rhs));
            Node::Or { lhs, rhs }
        },
        Node::OrAsgn { recv, value } => {
            let recv = Box::new(edit_node(table, *recv));
            let value = Box::new(edit_node(table, *value));
            Node::OrAsgn { recv, value }
        },
        _ => {
            proof {
                assert(false);
            }
            unreached()
        },
    }
}

/// One slice of the renamer's node dispatch, split to keep each
/// verification unit small.
#[verifier::spinoff_prover]
#[verifier::rlimit(100)]
fn edit_binding_like(table: &mut RenameTable, node: Node) -> (out: Node)
    requires
        node is Pair
            || node is Pin
            || node is Procarg0
            || node is Regexp
            || node is Rescue
            || node is Return
            || node is Splat
            || node is Super
            || node is UnlessGuard
            || node is Until
            || node is UntilPost
            || node is When
            || node is While
            || node is WhilePost
            || node is XHeredoc
            || node is Xstr
            || node is Yield
            || node is Lvar
            || node is Lvasgn
            || node is MatchVar
            || node is Send
            || node is Block
            || node is Def
            || node is Defs,
    ensures
        out.spec_kind() == node.spec_kind(),
        node matches Node::Lvar { name } ==> {
            &&& out matches Node::Lvar { name: n2 } && n2@ == resolved_name(
                old(table).entries@,
                name@,
            )
            &&& table_extended(old(table).entries@, name@, final(table).entries@)
        },
        node matches Node::Lvasgn { name, .. } ==> out matches Node::Lvasgn { name: n2, .. }
            && n2@ == resolved_name(old(table).entries@, name@),
        node matches Node::Def { args: Some(a), body: Some(b), .. } ==> params_renamed(
            Seq::empty(),
            node,
            out,
        ),
        node is Defs ==> params_renamed(Seq::empty(), node, out),
        node is Block ==> exists|seed: Seq<(String, String)>|
            #[trigger] params_renamed(seed, node, out),
    decreases node, 1int,
{
    match node {
        Node::Pair { key, value, operator_l } => {
            let key = Box::new(edit_node(table, *key));
            let value = Box::new(edit_node(table, *value));
            Node::Pair { key, value, operator_l }
        },
        Node::Pin { var } => {
            let var = Box::new(edit_node(table, *var));
            Node::Pin { var }
        },
        Node::Procarg0 { args, begin_l, end_l } => {
            let ghost gm = args@;
            let args = edit_vec(table, args, Ghost(gm));
            Node::Procarg0 { args, begin_l, end_l }
        },
        Node::Regexp { parts, options, begin_l } => {
            let ghost gm = parts@;
            let parts = edit_vec(table, parts, Ghost(gm));
            Node::Regexp { parts, options, begin_l }
        },
        Node::Rescue { body, rescue_bodies, else_ } => {
            let body = edit_opt(table, body);
            let ghost gm = rescue_bodies@;
            let rescue_bodies = edit_vec(table, rescue_bodies, Ghost(gm));
            let else_ = edit_opt(table, else_);
            Node::Rescue { body, rescue_bodies, else_ }
        },
        Node::Return { args } => {
            let ghost gm = args@;
            let args = edit_vec(table, args, Ghost(gm));
            Node::Return { args }
        },
        Node::Splat { value } => {
            let value = edit_opt(table, value);
            Node::Splat { value }
        },
        Node::Super { args } => {
            let ghost gm = args@;
            let args = edit_vec(table, args, Ghost(gm));
            Node::Super { args }
        },
        Node::UnlessGuard { cond } => {
            let cond = Box::new(edit_node(table, *cond));
            Node::UnlessGuard { cond }
        },
        Node::Until { cond, body, end_l } => {
            let cond = Box::new(edit_node(table, *cond));
            let body = edit_opt(table, body);
            Node::Until { cond, body, end_l }
        },
        Node::UntilPost { cond, body } => {
            let cond = Box::new(edit_node(table, *cond));
            let body = Box::new(edit_node(table, *body));
            Node::UntilPost { cond, body }
        },
        Node::When { patterns, body } => {
            let ghost gm = patterns@;
            let patterns = edit_vec(table, patterns, Ghost(gm));
            let body = edit_opt(table, body);
            Node::When { patterns, body }
        },
        Node::While { cond, body, end_l } => {
            let cond = Box::new(edit_node(table, *cond));
            let body = edit_opt(table, body);
            Node::While { cond, body, end_l }
        },
        Node::WhilePost { cond, body } => {
            let cond = Box::new(edit_node(table, *cond));
            let body = Box::new(edit_node(table, *body));
            Node::WhilePost { cond, body }
        },
        Node::XHeredoc { parts } => {
            let ghost gm = parts@;
            let parts = edit_vec(table, parts, Ghost(gm));
            Node::XHeredoc { parts }
        },
        Node::Xstr { parts, begin_l } => {
            let ghost gm = parts@;
            let parts = edit_vec(table, parts, Ghost(gm));
            Node::Xstr { parts, begin_l }
        },
        Node::Yield { args } => {
            let ghost gm = args@;
            let args = edit_vec(table, args, Ghost(gm));
            Node::Yield { args }
        },
        Node::Lvar { name } => {
            let name = resolve_or_assign_arg(table, &name);
            Node::Lvar { name }
        },
        Node::Lvasgn { name, value } => {
            let name = resolve_or_assign_arg(table, &name);
            let value = edit_opt(table, value);
            Node::Lvasgn { name, value }
        },
        Node::MatchVar { name } => {
            register_unrenamed(table, &name);
            Node::MatchVar { name }
        },
        Node::Send(mut send) => {
            let recv = edit_opt(table, send.recv);
            let ghost gm = send.args@;
            let args = edit_vec(table, send.args, Ghost(gm));
            send.recv = recv;
            send.args = args;
            Node::Send(send)
        },
        Node::Block { call, args, body, begin_l } => {
            let call = Box::new(edit_node(table, *call));
            let mut inner = table.duplicate();
            let ghost seed = inner.entries@;
            let ghost mut inpar: Seq<Node> = Seq::empty();
            let ghost mut outpar: Seq<Node> = Seq::empty();
            let ghost mut t1w: Seq<(String, String)> = Seq::empty();
            let ghost mut plain = false;
            let args = match args {
                Some(a) => match *a {
                    Node::Args { args: list } => {
                        let ghost gm = list@;
                        let list = edit_args(&mut inner, list, Ghost(gm));
                        proof {
                            inpar = gm;
                            outpar = list@;
                            t1w = inner.entries@;
                            plain = true;
                        }
                        Some(Box::new(Node::Args { args: list }))
                    },
                    other => Some(Box::new(edit_node(&mut inner, other))),
                },
                None => None,
            };
            let body = edit_opt(&mut inner, body);
            let out = Node::Block { call, args, body, begin_l };
            proof {
                if plain {
                    assert(params_of(node) == Some(inpar));
                    assert(params_of(out) == Some(outpar));
                    assert(list_renamed(seed, params_of(node)->Some_0, t1w, params_of(out)->Some_0));
                } else {
                    assert(params_of(node) is None);
                }
                assert(params_renamed(seed, node, out));
            }
            out
        },
        Node::Def { name, args, body, assignment_l } => {
            match args {
                Some(a) => match *a {
                    Node::Args { args: list } => match body {
                        Some(b) => {
                            let mut inner = RenameTable::new();
                            let ghost gm = list@;
                            let list = edit_args(&mut inner, list, Ghost(gm));
                            let ghost outpar = list@;
                            let ghost t1w = inner.entries@;
                            let new_body = Box::new(edit_node(&mut inner, *b));
                            let out = Node::Def {
                                name,
                                args: Some(Box::new(Node::Args { args: list })),
                                body: Some(new_body),
                                assignment_l,
                            };
                            proof {
                                assert(params_of(node) == Some(gm));
                                assert(params_of(out) == Some(outpar));
                                assert(list_renamed(
                                    Seq::empty(),
                                    params_of(node)->Some_0,
                                    t1w,
                                    params_of(out)->Some_0,
                                ));
                                assert(params_renamed(Seq::empty(), node, out));
                            }
                            out
                        },
                        None => Node::Def {
                            name,
                            args: Some(Box::new(Node::Args { args: list })),
                            body: None,
                            assignment_l,
                        },
                    },
                    other => {
                        let mut inner = RenameTable::new();
                        let body = edit_opt(&mut inner, body);
                        Node::Def { name, args: Some(Box::new(other)), body, assignment_l }
                    },
                },
                None => {
                    let mut inner = RenameTable::new();
                    let body = edit_opt(&mut inner, body);
                    Node::Def { name, args: None, body, assignment_l }
                },
            }
        },
        Node::Defs { definee, name, args, body, assignment_l } => {
            let definee = Box::new(edit_node(table, *definee));
            let mut inner = RenameTable::new();
            let ghost mut inpar: Seq<Node> = Seq::empty();
            let ghost mut outpar: Seq<Node> = Seq::empty();
            let ghost mut t1w: Seq<(String, String)> = Seq::empty();
            let ghost mut plain = false;
            let args = match args {
                Some(a) => match *a {
                    Node::Args { args: list } => {
                        let ghost gm = list@;
                        let list = edit_args(&mut inner, list, Ghost(gm));
                        proof {
                            inpar = gm;
                            outpar = list@;
                            t1w = inner.entries@;
                            plain = true;
                        }
                        Some(Box::new(Node::Args { args: list }))
                    },
                    other => Some(Box::new(edit_node(&mut inner, other))),
                },
                None => None,
            };
            let body = edit_opt(&mut inner, body);
            let out = Node::Defs { definee, name, args, body, assignment_l };
            proof {
                if plain {
                    assert(params_of(node) == Some(inpar));
                    assert(params_of(out) == Some(outpar));
                    assert(list_renamed(Seq::empty(), params_of(node)->Some_0, t1w, params_of(out)->Some_0));
                } else {
                    assert(params_of(node) is None);
                }
                assert(params_renamed(Seq::empty(), node, out));
            }
            out
        },
        _ => {
            proof {
                assert(false);
            }
            unreached()
        },
    }
}


} // verus!
