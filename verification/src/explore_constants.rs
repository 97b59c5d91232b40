use vstd::prelude::*;

use crate::ast::Node;
use crate::ast::SendNode;
use crate::render::dec_digits;
use crate::render::digit_char;

verus! {

broadcast use vstd::seq_lib::group_seq_properties;

/// One entry of the constant map: either a literal value node, or the
/// nested map of a module or class scope.
pub enum ConstantHashValue {
    EndValue(Node),
    ModuleValue(ConstantHashMap),
}

/// A nested name-to-value map mirroring module nesting. Entries keep
/// insertion order; a name occurs at most once because insertion always
/// goes through lookup first.
pub struct ConstantHashMap {
    pub entries: Vec<(String, ConstantHashValue)>,
}

/// The value recorded under a key: the first entry with that name.
pub open spec fn map_lookup(entries: Seq<(String, ConstantHashValue)>, key: Seq<char>) -> Option<
    ConstantHashValue,
>
    decreases entries.len(),
{
    if entries.len() == 0 {
        None
    } else if entries[0].0@ == key {
        Some(entries[0].1)
    } else {
        map_lookup(entries.drop_first(), key)
    }
}

pub fn make_constant_hash_map() -> (out: ConstantHashMap)
    ensures
        out.entries@ == Seq::<(String, ConstantHashValue)>::empty(),
{
    ConstantHashMap { entries: Vec::new() }
}

/// A literal value the explorer records directly: integer, float, string,
/// symbol, boolean or nil.
pub open spec fn is_recognized_literal(n: Node) -> bool {
    n is Int || n is Float || n is Str || n is Sym || n is Nil || n is True || n is False
}

pub fn recognized_literal(n: &Node) -> (b: bool)
    ensures
        b == is_recognized_literal(*n),
{
    match n {
        Node::Int { .. } => true,
        Node::Float { .. } => true,
        Node::Str { .. } => true,
        Node::Sym { .. } => true,
        Node::Nil {  } => true,
        Node::True {  } => true,
        Node::False {  } => true,
        _ => false,
    }
}

/// The `::`-joined name of a constant reference or constant assignment;
/// any other node contributes an empty name.
pub open spec fn spec_constant_name(n: Node) -> Seq<char>
    decreases n, 1int,
{
    match n {
        Node::Const { scope, name, .. } => spec_qualified(scope, name@),
        Node::Casgn { scope, name, .. } => spec_qualified(scope, name@),
        _ => Seq::empty(),
    }
}

/// A name prefixed by its scope chain, where one is recorded.
pub open spec fn spec_qualified(scope: Option<Box<Node>>, name: Seq<char>) -> Seq<char>
    decreases scope, 0int,
{
    match scope {
        Some(s) => spec_constant_name(*s) + "::"@ + name,
        None => name,
    }
}

/// The qualified name of a scope chain plus a final name segment.
pub fn qualified_name(scope: &Option<Box<Node>>, name: &String) -> (out: String)
    ensures
        out@ == spec_qualified(*scope, name@),
    decreases scope, 0int,
{
    match scope {
        Some(s) => {
            let mut full = constant_to_name(&**s);
            full.append("::");
            full.append(name.as_str());
            full
        },
        None => name.clone(),
    }
}

/// The qualified name of a constant reference or assignment node.
pub fn constant_to_name(node: &Node) -> (out: String)
    ensures
        out@ == spec_constant_name(*node),
    decreases node, 1int,
{
    match node {
        Node::Const { scope, name, .. } => qualified_name(scope, name),
        Node::Casgn { scope, name, .. } => qualified_name(scope, name),
        _ => String::new(),
    }
}

/// The numeric value of one decimal digit character.
pub open spec fn digit_val(c: char) -> Option<int> {
    if c == '0' {
        Some(0)
    } else if c == '1' {
        Some(1)
    } else if c == '2' {
        Some(2)
    } else if c == '3' {
        Some(3)
    } else if c == '4' {
        Some(4)
    } else if c == '5' {
        Some(5)
    } else if c == '6' {
        Some(6)
    } else if c == '7' {
        Some(7)
    } else if c == '8' {
        Some(8)
    } else if c == '9' {
        Some(9)
    } else {
        None
    }
}

/// The value of an unsigned run of decimal digits; anything else reads as
/// nothing.
pub open spec fn parse_digits(s: Seq<char>) -> Option<int>
    decreases s.len(),
{
    if s.len() == 0 {
        None
    } else if s.len() == 1 {
        digit_val(s[0])
    } else {
        match (parse_digits(s.drop_last()), digit_val(s.last())) {
            (Some(hi), Some(lo)) => Some(hi * 10 + lo),
            _ => None,
        }
    }
}

/// The value of a decimal numeral with an optional leading minus sign.
pub open spec fn parse_dec(s: Seq<char>) -> Option<int> {
    if s.len() > 0 && s[0] == '-' {
        match parse_digits(s.drop_first()) {
            Some(v) => Some(-v),
            None => None,
        }
    } else {
        parse_digits(s)
    }
}

/// Ten to the `n`: the bound on any value read from `n` digits.
pub open spec fn pow10(n: nat) -> int
    decreases n,
{
    if n == 0 {
        1
    } else {
        10 * pow10((n - 1) as nat)
    }
}

/// Reading back the decimal rendering of a number gives the number: the
/// round trip that makes a rendered integer literal denote its own value.
pub proof fn lemma_parse_dec_digits(n: nat)
    ensures
        parse_digits(dec_digits(n)) == Some(n as int),
        dec_digits(n).len() >= 1,
        dec_digits(n)[0] != '-',
    decreases n,
{
    if n < 10 {
        assert(dec_digits(n) == seq![digit_char(n)]);
        assert(parse_digits(dec_digits(n)) == digit_val(digit_char(n)));
    } else {
        lemma_parse_dec_digits(n / 10);
        let s = dec_digits(n);
        assert(s == dec_digits(n / 10) + seq![digit_char(n % 10)]);
        assert(s.drop_last() =~= dec_digits(n / 10));
        assert(s.last() == digit_char(n % 10));
        assert(digit_val(digit_char(n % 10)) == Some((n % 10) as int));
        assert(parse_digits(s) == Some((n / 10) as int * 10 + (n % 10) as int));
    }
}

/// How many digits an unsigned numeral can have while its value is read
/// without overflow risk here.
pub open spec fn small_numeral(s: Seq<char>) -> bool {
    s.len() <= 9
}

/// Ten to a smaller power is no more than ten to a larger one.
proof fn lemma_pow10_mono(a: nat, b: nat)
    requires
        a <= b,
    ensures
        pow10(a) <= pow10(b),
        pow10(a) >= 1,
    decreases b,
{
    if b == 0 {
    } else if a == b {
        lemma_pow10_mono((a - 1) as nat, (b - 1) as nat);
    } else {
        lemma_pow10_mono(a, (b - 1) as nat);
    }
}

/// The concrete bounds used when reading short numerals.
proof fn lemma_pow10_vals()
    ensures
        pow10(8nat) == 100000000,
        pow10(9nat) == 1000000000,
{
    reveal_with_fuel(pow10, 10);
}

/// A numeral that reads as a value is made of digits only.
proof fn lemma_parse_digits_char(s: Seq<char>, i: int)
    requires
        0 <= i < s.len(),
        parse_digits(s) is Some,
    ensures
        digit_val(s[i]) is Some,
    decreases s.len(),
{
    if s.len() == 1 {
    } else if i == s.len() - 1 {
    } else {
        lemma_parse_digits_char(s.drop_last(), i);
        assert(s.drop_last()[i] == s[i]);
    }
}

/// Reads an unsigned decimal numeral of at most nine digits.
fn parse_small_digits(s: &str) -> (out: Option<i64>)
    ensures
        out matches Some(v) ==> parse_digits(s@) == Some(v as int) && 0 <= v < 1000000000,
        parse_digits(s@) is Some && small_numeral(s@) ==> out is Some,
{
    let n = s.unicode_len();
    if n == 0 || n > 9 {
        proof {
            if n == 0 {
                assert(parse_digits(s@) is None);
            }
        }
        return None;
    }
    let mut acc: i64 = 0;
    let mut i: usize = 0;
    while i < n
        invariant
            n == s@.len(),
            1 <= n <= 9,
            i <= n,
            i > 0 ==> parse_digits(s@.take(i as int)) == Some(acc as int),
            i == 0 ==> acc == 0,
            0 <= acc < pow10(i as nat),
        decreases n - i,
    {
        let c = s.get_char(i);
        let d: i64 = if c == '0' {
            0
        } else if c == '1' {
            1
        } else if c == '2' {
            2
        } else if c == '3' {
            3
        } else if c == '4' {
            4
        } else if c == '5' {
            5
        } else if c == '6' {
            6
        } else if c == '7' {
            7
        } else if c == '8' {
            8
        } else if c == '9' {
            9
        } else {
            proof {
                if parse_digits(s@) is Some {
                    lemma_parse_digits_char(s@, i as int);
                }
            }
            return None;
        };
        proof {
            lemma_pow10_mono(i as nat, 8nat);
            lemma_pow10_vals();
            assert(digit_val(s@[i as int]) == Some(d as int));
            assert(s@.take(i as int + 1).drop_last() =~= s@.take(i as int));
            assert(s@.take(i as int + 1).last() == s@[i as int]);
            assert(s@.take(1int).len() == 1);
        }
        acc = acc * 10 + d;
        i = i + 1;
    }
    proof {
        assert(s@.take(n as int) =~= s@);
        lemma_pow10_mono(n as nat, 9nat);
        lemma_pow10_vals();
    }
    Some(acc)
}

/// Reads a decimal numeral with an optional minus sign, refusing numerals
/// too long to read safely.
pub fn parse_int(s: &str) -> (out: Option<i64>)
    ensures
        out matches Some(v) ==> parse_dec(s@) == Some(v as int) && -1000000000 < v
            < 1000000000,
        parse_dec(s@) is Some && s@.len() <= 9 && !(s@[0] == '-') ==> out is Some,
        parse_dec(s@) is Some && s@[0] == '-' && s@.len() <= 10 ==> out is Some,
{
    let n = s.unicode_len();
    if n > 0 && s.get_char(0) == '-' {
        let tail = s.substring_char(1, n);
        proof {
            assert(tail@ =~= s@.drop_first());
        }
        match parse_small_digits(tail) {
            Some(v) => Some(-v),
            None => None,
        }
    } else {
        parse_small_digits(s)
    }
}

/// The decimal text of a value, sign included.
pub fn int_to_string(v: i64) -> (out: String)
    requires
        -1000000000000 < v < 1000000000000,
    ensures
        parse_dec(out@) == Some(v as int),
{
    let mut out = String::new();
    if v < 0 {
        out.append("-");
        let digits = u64_decimal((-v) as u64);
        out.append(digits.as_str());
        proof {
            reveal_strlit("-");
            lemma_parse_dec_digits((-v) as nat);
            assert(out@.drop_first() =~= dec_digits((-v) as nat));
            assert(out@[0] == '-');
        }
    } else {
        let digits = u64_decimal(v as u64);
        out.append(digits.as_str());
        proof {
            lemma_parse_dec_digits(v as nat);
        }
    }
    out
}

/// The decimal digits of an unsigned value.
fn u64_decimal(n: u64) -> (out: String)
    ensures
        out@ == dec_digits(n as nat),
    decreases n,
{
    let mut out = String::new();
    if n < 10 {
        let d: u8 = (n % 10) as u8;
        push_digit(&mut out, d);
    } else {
        let s = u64_decimal(n / 10);
        out.append(s.as_str());
        push_digit(&mut out, (n % 10) as u8);
    }
    out
}

/// Appends one digit character.
fn push_digit(out: &mut String, d: u8)
    requires
        d < 10,
    ensures
        final(out)@ == old(out)@ + seq![digit_char(d as nat)],
{
    let ch: char = if d == 0 {
        '0'
    } else if d == 1 {
        '1'
    } else if d == 2 {
        '2'
    } else if d == 3 {
        '3'
    } else if d == 4 {
        '4'
    } else if d == 5 {
        '5'
    } else if d == 6 {
        '6'
    } else if d == 7 {
        '7'
    } else if d == 8 {
        '8'
    } else {
        '9'
    };
    crate::code_writer::push_char(out, ch);
}

/// A caller-supplied rule that may turn a recognized call expression into a
/// literal replacement value. The relation is whatever the implementation
/// declares it to be; the one obligation every implementation carries is
/// that a replacement, when produced, is a recognized literal, so that the
/// explorer's recursion stays shallow.
pub trait Resolver {
    spec fn resolve_rel(&self, send: &SendNode, out: &Option<Node>) -> bool;

    fn resolve(&self, send: &SendNode) -> (out: Option<Node>)
        ensures
            self.resolve_rel(send, &out),
            out matches Some(n) ==> is_recognized_literal(n),
    ;
}

/// Does this call match the two-argument generator pattern, and with which
/// argument numerals?
pub open spec fn gen_arg_texts(send: &SendNode) -> Option<(Seq<char>, Seq<char>)> {
    if send.recv is None && send.method_name@ == "gen"@ && send.args@.len() == 2 {
        match (send.args@[0], send.args@[1]) {
            (Node::Int { value: a }, Node::Int { value: b }) => Some((a@, b@)),
            _ => None,
        }
    } else {
        None
    }
}

/// A numeral short enough that this module reads it without any risk of
/// overflow; longer numerals are treated as unresolvable.
pub open spec fn numeral_ok(s: Seq<char>) -> bool {
    s.len() > 0 && (if s[0] == '-' {
        s.len() <= 10
    } else {
        s.len() <= 9
    })
}

/// The example resolver: recognizes a bare two-argument `gen(a, b)` call
/// and computes the literal `384 + a + b*8`.
pub struct GenResolver {}

impl Resolver for GenResolver {
    open spec fn resolve_rel(&self, send: &SendNode, out: &Option<Node>) -> bool {
        match gen_arg_texts(send) {
            Some((ta, tb)) => match (parse_dec(ta), parse_dec(tb)) {
                (Some(a), Some(b)) => {
                    &&& (out matches Some(n) ==> n matches Node::Int { value } && parse_dec(
                        value@,
                    ) == Some(384 + a + 8 * b))
                    &&& (numeral_ok(ta) && numeral_ok(tb) ==> out is Some)
                },
                _ => out is None,
            },
            None => out is None,
        }
    }

    fn resolve(&self, send: &SendNode) -> (out: Option<Node>)
        ensures
            self.resolve_rel(send, &out),
            out matches Some(n) ==> is_recognized_literal(n),
    {
        if send.recv.is_some() {
            return None;
        }
        if !crate::code_writer::string_eq_literal(&send.method_name, "gen") {
            return None;
        }
        if send.args.len() != 2 {
            return None;
        }
        let a: i64 = match &send.args[0] {
            Node::Int { value } => match parse_int(value.as_str()) {
                Some(v) => v,
                None => {
                    return None;
                },
            },
            _ => {
                return None;
            },
        };
        let b: i64 = match &send.args[1] {
            Node::Int { value } => match parse_int(value.as_str()) {
                Some(v) => v,
                None => {
                    return None;
                },
            },
            _ => {
                return None;
            },
        };
        let v: i64 = 384 + a + 8 * b;
        let text = int_to_string(v);
        Some(Node::Int { value: text })
    }
}

/// What recording one constant assignment means for the map: the value is
/// bound under the assignment's qualified name and every other name keeps
/// its previous binding.
pub open spec fn records_constant(
    before: Seq<(String, ConstantHashValue)>,
    after: Seq<(String, ConstantHashValue)>,
    qname: Seq<char>,
    value: Node,
) -> bool {
    &&& map_lookup(after, qname) == Some(ConstantHashValue::EndValue(value))
    &&& forall|k2: Seq<char>| k2 != qname ==> #[trigger] map_lookup(after, k2) == map_lookup(
        before,
        k2,
    )
}

/// What one statement does to the map: a constant assignment with a
/// recognized literal value records it; one with a call value records
/// whatever literal the resolver replaces the call with, or nothing; any
/// other value, and any statement that opens no scope, leaves the map
/// untouched. Module and class scopes may change bindings only under their
/// own qualified name.
pub open spec fn explored_rel<R: Resolver>(
    before: Seq<(String, ConstantHashValue)>,
    after: Seq<(String, ConstantHashValue)>,
    node: Node,
    send_handler: &R,
) -> bool {
    match node {
        Node::Casgn { scope, name, value } => match value {
            Some(v) => if is_recognized_literal(*v) {
                records_constant(before, after, spec_qualified(scope, name@), *v)
            } else {
                match *v {
                    Node::Send(snd) => exists|res: Option<Node>|
                        {
                            &&& #[trigger] send_handler.resolve_rel(&snd, &res)
                            &&& match res {
                                Some(lit) => records_constant(
                                    before,
                                    after,
                                    spec_qualified(scope, name@),
                                    lit,
                                ),
                                None => after == before,
                            }
                        },
                    _ => after == before,
                }
            },
            None => after == before,
        },
        Node::Module { name, body } => scope_explored(before, after, spec_constant_name(*name), body),
        Node::Class { name, body, .. } => scope_explored(before, after, spec_constant_name(*name), body),
        Node::Begin { statements, .. } => (forall|i: int|
            0 <= i < statements@.len() ==> inert_statement(#[trigger] statements@[i])) ==> after
            == before,
        _ => after == before,
    }
}

/// A statement the explorer walks past without touching the map.
pub open spec fn inert_statement(n: Node) -> bool {
    !(n is Casgn || n is Module || n is Class || n is Begin)
}

/// What opening one module or class scope does to the map. Only the
/// scope's own qualified name can change. A missing body contributes
/// nothing. A name already bound to a plain value is left alone. A fresh
/// name either contributes nothing (an empty scope leaves no key behind)
/// or appears as a nested map — and when the body is directly one
/// constant assignment of a recognized literal, that nested map binds the
/// assignment's qualified name to exactly that literal.
pub open spec fn scope_explored(
    before: Seq<(String, ConstantHashValue)>,
    after: Seq<(String, ConstantHashValue)>,
    qn: Seq<char>,
    body: Option<Box<Node>>,
) -> bool {
    &&& forall|k2: Seq<char>|
        k2 != qn ==> #[trigger] map_lookup(after, k2) == map_lookup(before, k2)
    &&& (map_lookup(before, qn) matches Some(ConstantHashValue::EndValue(x)) ==> after == before)
    &&& (map_lookup(before, qn) is None ==> after == before || (map_lookup(after, qn)
        matches Some(ConstantHashValue::ModuleValue(m2))))
    &&& (match body {
        Some(b) => match *b {
            Node::Casgn { scope, name, value } => match value {
                Some(v) => (is_recognized_literal(*v) && !(map_lookup(before, qn) matches Some(
                    ConstantHashValue::EndValue(x),
                ))) ==> (map_lookup(after, qn) matches Some(ConstantHashValue::ModuleValue(m2))
                    && map_lookup(m2.entries@, spec_qualified(scope, name@)) == Some(
                    ConstantHashValue::EndValue(*v),
                )),
                None => true,
            },
            _ => true,
        },
        None => true,
    })
}

/// The first entry holding a key decides its binding.
proof fn lemma_lookup_at(entries: Seq<(String, ConstantHashValue)>, i: int, key: Seq<char>)
    requires
        0 <= i < entries.len(),
        forall|j: int| 0 <= j < i ==> (#[trigger] entries[j]).0@ != key,
        entries[i].0@ == key,
    ensures
        map_lookup(entries, key) == Some(entries[i].1),
    decreases i,
{
    if i > 0 {
        lemma_lookup_at(entries.drop_first(), i - 1, key);
    }
}

/// A key on no entry has no binding.
proof fn lemma_lookup_none(entries: Seq<(String, ConstantHashValue)>, key: Seq<char>)
    requires
        forall|j: int| 0 <= j < entries.len() ==> (#[trigger] entries[j]).0@ != key,
    ensures
        map_lookup(entries, key) is None,
    decreases entries.len(),
{
    if entries.len() > 0 {
        lemma_lookup_none(entries.drop_first(), key);
    }
}

/// Removing one entry leaves every other name's binding alone.
proof fn lemma_lookup_remove(
    before: Seq<(String, ConstantHashValue)>,
    i: int,
    name: Seq<char>,
)
    requires
        0 <= i < before.len(),
        forall|j: int| 0 <= j < i ==> (#[trigger] before[j]).0@ != name,
        before[i].0@ == name,
    ensures
        forall|k2: Seq<char>|
            k2 != name ==> #[trigger] map_lookup(before.remove(i), k2) == map_lookup(before, k2),
    decreases before.len(),
{
    if i == 0 {
        assert forall|k2: Seq<char>| k2 != name implies #[trigger] map_lookup(
            before.remove(0),
            k2,
        ) == map_lookup(before, k2) by {
            assert(before.remove(0) =~= before.drop_first());
        }
    } else {
        lemma_lookup_remove(before.drop_first(), i - 1, name);
        assert forall|k2: Seq<char>| k2 != name implies #[trigger] map_lookup(
            before.remove(i),
            k2,
        ) == map_lookup(before, k2) by {
            let after = before.remove(i);
            assert(after[0] == before[0]);
            assert(after.drop_first() =~= before.drop_first().remove(i - 1));
            if before[0].0@ != k2 {
                assert(map_lookup(before, k2) == map_lookup(before.drop_first(), k2));
                assert(map_lookup(after, k2) == map_lookup(after.drop_first(), k2));
            }
        }
    }
}

/// Records a value under a name: an existing entry with that name is
/// replaced in place, otherwise the entry is appended. Every other name
/// keeps its previous value.
fn insert_constant(map: &mut ConstantHashMap, name: String, value: ConstantHashValue)
    ensures
        map_lookup(final(map).entries@, name@) == Some(value),
        forall|k: Seq<char>|
            k != name@ ==> #[trigger] map_lookup(final(map).entries@, k) == map_lookup(
                old(map).entries@,
                k,
            ),
{
    let n = map.entries.len();
    let mut i: usize = 0;
    while i < n
        invariant
            n == map.entries@.len(),
            i <= n,
            map == old(map),
            forall|j: int| 0 <= j < i ==> (#[trigger] map.entries@[j]).0@ != name@,
        decreases n - i,
    {
        if crate::code_writer::string_eq_literal(&map.entries[i].0, name.as_str()) {
            let ghost before = map.entries@;
            map.entries.set(i, (name, value));
            proof {
                lemma_lookup_update(before, map.entries@, i as int, name@, value);
            }
            return ;
        }
        i = i + 1;
    }
    let ghost before = map.entries@;
    map.entries.push((name, value));
    proof {
        lemma_lookup_append(before, map.entries@, name@, value);
    }
}

/// Replacing the first entry holding a key rebinds exactly that key.
proof fn lemma_lookup_update(
    before: Seq<(String, ConstantHashValue)>,
    after: Seq<(String, ConstantHashValue)>,
    i: int,
    name: Seq<char>,
    value: ConstantHashValue,
)
    requires
        0 <= i < before.len(),
        after.len() == before.len(),
        after[i].0@ == name,
        after[i].1 == value,
        forall|j: int| 0 <= j < before.len() && j != i ==> after[j] == before[j],
        forall|j: int| 0 <= j < i ==> (#[trigger] before[j]).0@ != name,
        before[i].0@ == name,
    ensures
        map_lookup(after, name) == Some(value),
        forall|k: Seq<char>|
            k != name ==> #[trigger] map_lookup(after, k) == map_lookup(before, k),
    decreases before.len(),
{
    if i == 0 {
        assert forall|k: Seq<char>| k != name implies #[trigger] map_lookup(after, k)
            == map_lookup(before, k) by {
            assert(after.drop_first() =~= before.drop_first());
        }
    } else {
        lemma_lookup_update(before.drop_first(), after.drop_first(), i - 1, name, value);
        assert(after[0] == before[0]);
        assert forall|k: Seq<char>| k != name implies #[trigger] map_lookup(after, k)
            == map_lookup(before, k) by {
            if before[0].0@ != k {
                assert(map_lookup(before, k) == map_lookup(before.drop_first(), k));
                assert(map_lookup(after, k) == map_lookup(after.drop_first(), k));
            }
        }
        assert(map_lookup(after, name) == map_lookup(after.drop_first(), name));
    }
}

/// Appending an entry under a fresh key binds that key and nothing else.
proof fn lemma_lookup_append(
    before: Seq<(String, ConstantHashValue)>,
    after: Seq<(String, ConstantHashValue)>,
    name: Seq<char>,
    value: ConstantHashValue,
)
    requires
        after == before.push((after.last().0, value)),
        after.last().0@ == name,
        after.last().1 == value,
        forall|j: int| 0 <= j < before.len() ==> (#[trigger] before[j]).0@ != name,
    ensures
        map_lookup(after, name) == Some(value),
        forall|k: Seq<char>|
            k != name ==> #[trigger] map_lookup(after, k) == map_lookup(before, k),
    decreases before.len(),
{
    if before.len() == 0 {
        assert(after.len() == 1);
        assert forall|k: Seq<char>| k != name implies #[trigger] map_lookup(after, k)
            == map_lookup(before, k) by {
            assert(after[0].0@ == name);
        }
    } else {
        lemma_lookup_append(before.drop_first(), after.drop_first(), name, value);
        assert(after.drop_first() =~= before.drop_first().push((after.last().0, value)));
        assert(after[0] == before[0]);
        assert(after[0].0@ != name);
        assert(map_lookup(after, name) == map_lookup(after.drop_first(), name));
        assert forall|k: Seq<char>| k != name implies #[trigger] map_lookup(after, k)
            == map_lookup(before, k) by {
            if before[0].0@ != k {
                assert(map_lookup(before, k) == map_lookup(before.drop_first(), k));
                assert(map_lookup(after, k) == map_lookup(after.drop_first(), k));
            }
        }
    }
}

/// Collects literal constant assignments from the tree into the map,
/// mirroring module and class nesting as nested maps; a scope that ends up
/// contributing nothing leaves no entry behind.
pub fn explore_constants<R: Resolver>(
    top_level_or_current_module: &mut ConstantHashMap,
    node: &Node,
    send_handler: &R,
)
    ensures
        explored_rel(
            old(top_level_or_current_module).entries@,
            final(top_level_or_current_module).entries@,
            *node,
            send_handler,
        ),
    decreases node, 1int,
{
    match node {
        Node::Module { name, body } => {
            explore_module_or_class(top_level_or_current_module, &**name, body, send_handler);
        },
        Node::Class { name, body, .. } => {
            explore_module_or_class(top_level_or_current_module, &**name, body, send_handler);
        },
        _ => {
            explore_body(top_level_or_current_module, node, send_handler);
        },
    }
}

/// Opens (or creates) the nested map for one module or class scope,
/// explores the body into it, and prunes the entry again when the nested
/// map stayed empty.
fn explore_module_or_class<R: Resolver>(
    current_module: &mut ConstantHashMap,
    name: &Node,
    body: &Option<Box<Node>>,
    send_handler: &R,
)
    ensures
        scope_explored(
            old(current_module).entries@,
            final(current_module).entries@,
            spec_constant_name(*name),
            *body,
        ),
    decreases body, 0int,
{
    let module_name = constant_to_name(name);
    let ghost qn = module_name@;
    let ghost before = current_module.entries@;
    let n = current_module.entries.len();
    let mut idx_opt: Option<usize> = None;
    let mut i: usize = 0;
    while i < n
        invariant
            n == current_module.entries@.len(),
            i <= n,
            qn == module_name@,
            current_module == old(current_module),
            match idx_opt {
                Some(x) => x < n && current_module.entries@[x as int].0@ == qn && forall|j: int|
                    0 <= j < x ==> (#[trigger] current_module.entries@[j]).0@ != qn,
                None => forall|j: int|
                    0 <= j < i ==> (#[trigger] current_module.entries@[j]).0@ != qn,
            },
        decreases n - i,
    {
        if idx_opt.is_none() && crate::code_writer::string_eq_literal(
            &current_module.entries[i].0,
            module_name.as_str(),
        ) {
            idx_opt = Some(i);
        }
        i = i + 1;
    }
    proof {
        match idx_opt {
            Some(idx) => {
                lemma_lookup_at(before, idx as int, qn);
            },
            None => {
                lemma_lookup_none(before, qn);
            },
        }
    }
    let (slot, mut nested): (usize, ConstantHashMap) = match idx_opt {
        Some(idx) => {
            let (key, val) = current_module.entries.remove(idx);
            match val {
                ConstantHashValue::EndValue(plain) => {
                    current_module.entries.insert(idx, (key, ConstantHashValue::EndValue(plain)));
                    proof {
                        assert(current_module.entries@ =~= before);
                    }
                    return ;
                },
                ConstantHashValue::ModuleValue(m) => (idx, m),
            }
        },
        None => (current_module.entries.len(), ConstantHashMap { entries: Vec::new() }),
    };
    let ghost nested0 = nested.entries@;
    match body {
        Some(b) => {
            explore_body(&mut nested, &**b, send_handler);
        },
        None => {},
    }
    proof {
        match body {
            Some(b) => {
                match &**b {
                    Node::Casgn { scope: cs, name: cn, value: cv } => {
                        match cv {
                            Some(v) => {
                                if is_recognized_literal(**v) {
                                    assert(map_lookup(
                                        nested.entries@,
                                        spec_qualified(*cs, cn@),
                                    ) == Some(ConstantHashValue::EndValue(**v)));
                                    if nested.entries@.len() == 0 {
                                        assert(map_lookup(
                                            nested.entries@,
                                            spec_qualified(*cs, cn@),
                                        ) is None);
                                    }
                                }
                            },
                            None => {},
                        }
                    },
                    _ => {},
                }
            },
            None => {},
        }
    }
    if nested.entries.len() > 0 {
        current_module.entries.insert(slot, (module_name, ConstantHashValue::ModuleValue(nested)));
        proof {
            let after = current_module.entries@;
            match idx_opt {
                Some(idx) => {
                    assert(after =~= before.update(idx as int, after[idx as int]));
                    lemma_lookup_update(
                        before,
                        after,
                        idx as int,
                        qn,
                        after[idx as int].1,
                    );
                },
                None => {
                    assert(after =~= before.push(after.last()));
                    lemma_lookup_append(before, after, qn, after.last().1);
                },
            }
        }
    } else {
        proof {
            match idx_opt {
                Some(idx) => {
                    assert(current_module.entries@ =~= before.remove(idx as int));
                    lemma_lookup_remove(before, idx as int, qn);
                },
                None => {
                    assert(current_module.entries@ =~= before);
                },
            }
        }
    }
}

/// Walks one body: records constant assignments, descends into nested
/// scopes and statement sequences, ignores everything else.
fn explore_body<R: Resolver>(map: &mut ConstantHashMap, body: &Node, send_handler: &R)
    ensures
        explored_rel(old(map).entries@, final(map).entries@, *body, send_handler),
    decreases body, 0int,
{
    match body {
        Node::Casgn { scope, name, value } => {
            handle_casgn(map, scope, name, value, send_handler);
        },
        Node::Module { name, body: mbody } => {
            explore_module_or_class(map, &**name, mbody, send_handler);
        },
        Node::Class { name, body: cbody, .. } => {
            explore_module_or_class(map, &**name, cbody, send_handler);
        },
        Node::Begin { statements, .. } => {
            explore_statements(map, statements, send_handler);
        },
        _ => {},
    }
}

/// Each statement of a sequence, explored in order.
fn explore_statements<R: Resolver>(map: &mut ConstantHashMap, statements: &Vec<Node>, send_handler: &R)
    ensures
        (forall|i: int| 0 <= i < statements@.len() ==> inert_statement(#[trigger] statements@[i]))
            ==> final(map).entries@ == old(map).entries@,
    decreases statements, 0int,
{
    let n = statements.len();
    let mut i: usize = 0;
    while i < n
        invariant
            n == statements@.len(),
            i <= n,
            (forall|j: int| 0 <= j < n ==> inert_statement(#[trigger] statements@[j]))
                ==> map.entries@ == old(map).entries@,
        decreases n - i,
    {
        explore_body(map, &statements[i], send_handler);
        i = i + 1;
    }
}

/// One constant assignment: a recognized literal value is recorded under
/// the assignment's qualified name; a call is first offered to the
/// resolver, whose literal replacement (if any) is recorded instead; any
/// other value is dropped.
fn handle_casgn<R: Resolver>(
    map: &mut ConstantHashMap,
    scope: &Option<Box<Node>>,
    name: &String,
    value: &Option<Box<Node>>,
    send_handler: &R,
)
    ensures
        match *value {
            Some(v) => if is_recognized_literal(*v) {
                records_constant(
                    old(map).entries@,
                    final(map).entries@,
                    spec_qualified(*scope, name@),
                    *v,
                )
            } else {
                match *v {
                    Node::Send(snd) => exists|res: Option<Node>|
                        {
                            &&& #[trigger] send_handler.resolve_rel(&snd, &res)
                            &&& match res {
                                Some(lit) => records_constant(
                                    old(map).entries@,
                                    final(map).entries@,
                                    spec_qualified(*scope, name@),
                                    lit,
                                ),
                                None => final(map).entries@ == old(map).entries@,
                            }
                        },
                    _ => final(map).entries@ == old(map).entries@,
                }
            },
            None => final(map).entries@ == old(map).entries@,
        },
    decreases value, 0int,
{
    match value {
        Some(v) => {
            if recognized_literal(&**v) {
                let qname = qualified_name(scope, name);
                let stored = clone_literal(&**v);
                insert_constant(map, qname, ConstantHashValue::EndValue(stored));
            } else {
                match &**v {
                    Node::Send(send) => {
                        let replacement = send_handler.resolve(send);
                        match replacement {
                            Some(lit) => {
                                let qname = qualified_name(scope, name);
                                insert_constant(map, qname, ConstantHashValue::EndValue(lit));
                            },
                            None => {},
                        }
                    },
                    _ => {},
                }
            }
        },
        None => {},
    }
}

/// A copy of a literal node (the only node kinds the map stores).
fn clone_literal(n: &Node) -> (out: Node)
    requires
        is_recognized_literal(*n),
    ensures
        out == *n,
{
    match n {
        Node::Int { value } => Node::Int { value: value.clone() },
        Node::Float { value } => Node::Float { value: value.clone() },
        Node::Str { value } => Node::Str { value: value.clone() },
        Node::Sym { name, begin_l, end_l } => Node::Sym {
            name: name.clone(),
            begin_l: *begin_l,
            end_l: *end_l,
        },
        Node::Nil {  } => Node::Nil {  },
        Node::True {  } => Node::True {  },
        Node::False {  } => Node::False {  },
        _ => unreached(),
    }
}

} // verus!
