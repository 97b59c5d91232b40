use vstd::prelude::*;

use crate::ast::Loc;

verus! {

broadcast use vstd::seq_lib::group_seq_properties;

/// The comment table handed over by the parsing collaborator: the span of
/// each comment in the source bytes, the source bytes themselves, and
/// whether method bodies are left out when documentation is reattached.
pub struct DocumentationContext {
    pub comments: Vec<Loc>,
    pub input: Vec<u8>,
    pub exclude_method_body: bool,
}

/// The first comment whose span ends exactly at `target`.
pub open spec fn spec_find_by_end(comments: Seq<Loc>, target: int) -> Option<int>
    decreases comments.len(),
{
    if comments.len() == 0 {
        None
    } else if comments[0].end == target {
        Some(0int)
    } else {
        match spec_find_by_end(comments.drop_first(), target) {
            Some(i) => Some(i + 1),
            None => None,
        }
    }
}

/// Walks backwards through comments that sit directly above one another
/// (allowing one indentation width of gap): from the current block start,
/// as long as another comment ends exactly one gap above it, that earlier
/// comment becomes the block start. The walk stops when no such comment
/// exists or no strict progress is possible.
pub open spec fn spec_chain_start(comments: Seq<Loc>, cur: int, x: nat, off: nat) -> int
    decreases x,
{
    match spec_find_by_end(comments, x as int) {
        Some(prev) => {
            if 0 <= prev < comments.len() && off <= comments[prev].begin && (comments[prev].begin
                - off) < x {
                spec_chain_start(comments, prev, (comments[prev].begin - off) as nat, off)
            } else {
                prev
            }
        },
        None => cur,
    }
}

/// One comment's bytes followed by the indentation prefix; a span that does
/// not fit the source bytes contributes nothing.
pub open spec fn spec_piece(c: Loc, input: Seq<u8>, off: nat) -> Seq<u8> {
    (if c.begin <= c.end && c.end <= input.len() {
        input.subrange(c.begin as int, c.end as int)
    } else {
        Seq::<u8>::empty()
    }) + (if off > 0 {
        Seq::new(off, |i: int| 32u8)
    } else {
        Seq::<u8>::empty()
    })
}

/// The bytes of the comments from index `first` to `last`, in order.
pub open spec fn spec_doc_bytes(
    comments: Seq<Loc>,
    input: Seq<u8>,
    first: int,
    last: int,
    off: nat,
) -> Seq<u8>
    decreases last - first + 1,
{
    if first > last || first < 0 || last >= comments.len() {
        Seq::empty()
    } else {
        spec_doc_bytes(comments, input, first, last - 1, off) + spec_piece(
            comments[last],
            input,
            off,
        )
    }
}

/// The block start for the comment found at `last`.
pub open spec fn spec_block_start(comments: Seq<Loc>, last: int, off: nat) -> int {
    if 0 <= last < comments.len() && off <= comments[last].begin {
        spec_chain_start(comments, last, (comments[last].begin - off) as nat, off)
    } else {
        last
    }
}

/// Everything `write_documentation` emits for a node that begins at
/// `node_expression_begin`: the contiguous block of comments directly above
/// it, or nothing when there is none.
pub open spec fn spec_documentation(
    comments: Seq<Loc>,
    input: Seq<u8>,
    indent: u32,
    node_expression_begin: usize,
) -> Seq<u8> {
    let off = 2 * (indent as nat);
    if off <= node_expression_begin {
        match spec_find_by_end(comments, node_expression_begin - off) {
            Some(last) => spec_doc_bytes(
                comments,
                input,
                spec_block_start(comments, last, off),
                last,
                off,
            ),
            None => Seq::empty(),
        }
    } else {
        Seq::empty()
    }
}

/// The first comment ending exactly at `target`, if any.
fn find_by_end(comments: &Vec<Loc>, target: usize) -> (out: Option<usize>)
    ensures
        match out {
            Some(i) => spec_find_by_end(comments@, target as int) == Some(i as int) && i
                < comments@.len(),
            None => spec_find_by_end(comments@, target as int) is None,
        },
{
    let n = comments.len();
    let mut i: usize = 0;
    proof {
        assert(comments@.skip(0) =~= comments@);
    }
    while i < n
        invariant
            n == comments@.len(),
            i <= n,
            spec_find_by_end(comments@.skip(i as int), target as int) matches Some(k)
                ==> spec_find_by_end(comments@, target as int) == Some(k + i),
            spec_find_by_end(comments@.skip(i as int), target as int) is None
                ==> spec_find_by_end(comments@, target as int) is None,
        decreases n - i,
    {
        proof {
            assert(comments@.skip(i as int)[0] == comments@[i as int]);
            assert(comments@.skip(i as int).drop_first() =~= comments@.skip(i as int + 1));
        }
        if comments[i].end == target {
            return Some(i);
        }
        i = i + 1;
    }
    proof {
        assert(comments@.skip(n as int) =~= Seq::<Loc>::empty());
    }
    None
}

impl DocumentationContext {
    pub fn new(comments: Vec<Loc>, input: Vec<u8>, exclude_method_body: bool) -> (out:
        DocumentationContext)
        ensures
            out.comments == comments,
            out.input == input,
            out.exclude_method_body == exclude_method_body,
    {
        DocumentationContext { comments, input, exclude_method_body }
    }

    /// The contiguous leading comment block immediately above the node that
    /// begins at `node_expression_begin`, each comment followed by the
    /// current indentation, ready to be emitted ahead of the node itself.
    pub fn write_documentation(&self, indent: u32, node_expression_begin: usize) -> (out: Vec<u8>)
        ensures
            out@ == spec_documentation(self.comments@, self.input@, indent, node_expression_begin),
    {
        let ghost offn = 2 * (indent as nat);
        let out: Vec<u8> = Vec::new();
        let off64: u64 = 2u64 * (indent as u64);
        if off64 > (node_expression_begin as u64) {
            return out;
        }
        let off: usize = off64 as usize;
        let last = match find_by_end(&self.comments, node_expression_begin - off) {
            Some(l) => l,
            None => {
                return out;
            },
        };
        let ghost target = spec_block_start(self.comments@, last as int, offn);
        let mut first = last;
        let mut x: usize = 0;
        let mut walking = off <= self.comments[last].begin;
        if walking {
            x = self.comments[last].begin - off;
        }
        while walking
            invariant
                offn == off,
                first < self.comments@.len(),
                last < self.comments@.len(),
                walking ==> spec_chain_start(self.comments@, first as int, x as nat, offn)
                    == target,
                !walking ==> first as int == target,
            decreases (if walking {
                1int
            } else {
                0int
            }), x,
        {
            match find_by_end(&self.comments, x) {
                Some(prev) => {
                    if off <= self.comments[prev].begin && self.comments[prev].begin - off < x {
                        first = prev;
                        x = self.comments[prev].begin - off;
                    } else {
                        first = prev;
                        walking = false;
                    }
                },
                None => {
                    walking = false;
                },
            }
        }
        self.emit_block(first, last, off, Ghost(target))
    }

    /// The bytes of the block from `first` to `last`.
    fn emit_block(&self, first: usize, last: usize, off: usize, Ghost(target): Ghost<int>) -> (out:
        Vec<u8>)
        requires
            first < self.comments@.len(),
            last < self.comments@.len(),
            first as int == target,
        ensures
            out@ == spec_doc_bytes(self.comments@, self.input@, target, last as int, off as nat),
    {
        let mut out: Vec<u8> = Vec::new();
        if first > last {
            return out;
        }
        let n = self.comments.len();
        let mut i = first;
        while i <= last
            invariant
                first <= i <= last + 1,
                n == self.comments@.len(),
                last < n,
                out@ == spec_doc_bytes(
                    self.comments@,
                    self.input@,
                    first as int,
                    i - 1,
                    off as nat,
                ),
            decreases last + 1 - i,
        {
            let c = self.comments[i];
            let ghost before = out@;
            if c.begin <= c.end && c.end <= self.input.len() {
                let mut j = c.begin;
                while j < c.end
                    invariant
                        i <= last,
                        last < self.comments@.len(),
                        c.begin <= j <= c.end,
                        c.end <= self.input@.len(),
                        out@ == before + self.input@.subrange(c.begin as int, j as int),
                    decreases c.end - j,
                {
                    out.push(self.input[j]);
                    proof {
                        assert(before + self.input@.subrange(c.begin as int, j as int) + seq![
                            self.input@[j as int],
                        ] =~= before + self.input@.subrange(c.begin as int, j as int + 1));
                    }
                    j = j + 1;
                }
            }
            let ghost mid = out@;
            if off > 0 {
                let mut p: usize = 0;
                while p < off
                    invariant
                        i <= last,
                        last < self.comments@.len(),
                        p <= off,
                        out@ == mid + Seq::new(p as nat, |q: int| 32u8),
                    decreases off - p,
                {
                    out.push(32u8);
                    proof {
                        assert(mid + Seq::new(p as nat, |q: int| 32u8) + seq![32u8] =~= mid
                            + Seq::new((p + 1) as nat, |q: int| 32u8));
                    }
                    p = p + 1;
                }
            }
            proof {
                assert(out@ == spec_doc_bytes(
                    self.comments@,
                    self.input@,
                    first as int,
                    i - 1,
                    off as nat,
                ) + spec_piece(self.comments@[i as int], self.input@, off as nat));
            }
            i = i + 1;
        }
        out
    }

    pub fn method_body_excluded(&self) -> (b: bool)
        ensures
            b == self.exclude_method_body,
    {
        self.exclude_method_body
    }
}

} // verus!
