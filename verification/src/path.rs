//! Decode paths: the sequence of field and index accesses that leads to the
//! point where decoding a JSON document failed.
//!
//! A path is recorded incrementally while a decoder descends into a document,
//! independently of the target type, and rendered in the usual dotted and
//! bracketed notation, e.g. `usage.input_tokens` or `output[2].content`.

use vstd::prelude::*;

verus! {

/// One step into a JSON document: an object field or an array index.
#[derive(Debug, Clone, PartialEq)]
pub enum PathSegment {
    Field(String),
    Index(u64),
}

/// The mathematical value of a path segment.
pub enum PathSegView {
    Field(Seq<char>),
    Index(u64),
}

impl View for PathSegment {
    type V = PathSegView;

    open spec fn view(&self) -> PathSegView {
        match self {
            PathSegment::Field(f) => PathSegView::Field(f@),
            PathSegment::Index(i) => PathSegView::Index(*i),
        }
    }
}

/// The decimal digits of `n`, most significant first.
pub open spec fn dec_spec(n: nat) -> Seq<char>
    decreases n,
{
    if n < 10 {
        seq![digit_char(n)]
    } else {
        dec_spec(n / 10) + seq![digit_char(n % 10)]
    }
}

/// The character for one decimal digit.
pub open spec fn digit_char(d: nat) -> char {
    ((48 + (d % 10)) as u8) as char
}

/// How one segment renders: the leading `.` separates two fields, while an
/// index is bracketed and attaches directly.
pub open spec fn seg_render(s: PathSegView, first: bool) -> Seq<char> {
    match s {
        PathSegView::Field(f) => if first {
            f
        } else {
            seq!['.'] + f
        },
        PathSegView::Index(i) => seq!['['] + dec_spec(i as nat) + seq![']'],
    }
}

/// The rendering of a whole path.
pub open spec fn path_render(segs: Seq<PathSegView>) -> Seq<char>
    decreases segs.len(),
{
    if segs.len() == 0 {
        Seq::empty()
    } else {
        path_render(segs.drop_last()) + seg_render(segs.last(), segs.len() == 1)
    }
}

/// The single-character string for one decimal digit.
fn digit_str(d: u64) -> (r: &'static str)
    requires
        d < 10,
    ensures
        r@ == seq![digit_char(d as nat)],
{
    proof {
        reveal_strlit("0");
        reveal_strlit("1");
        reveal_strlit("2");
        reveal_strlit("3");
        reveal_strlit("4");
        reveal_strlit("5");
        reveal_strlit("6");
        reveal_strlit("7");
        reveal_strlit("8");
        reveal_strlit("9");
    }
    match d {
        0 => "0",
        1 => "1",
        2 => "2",
        3 => "3",
        4 => "4",
        5 => "5",
        6 => "6",
        7 => "7",
        8 => "8",
        _ => "9",
    }
}

/// Appends the decimal rendering of `n` to `s`.
fn push_dec(s: &mut String, n: u64)
    ensures
        final(s)@ == old(s)@ + dec_spec(n as nat),
    decreases n,
{
    if n >= 10 {
        push_dec(s, n / 10);
        s.append(digit_str(n % 10));
    } else {
        s.append(digit_str(n));
    }
}

/// The decimal rendering of `n`, e.g. `407` renders as `"407"`.
pub fn dec_string(n: u64) -> (r: String)
    ensures
        r@ == dec_spec(n as nat),
{
    let mut s = String::new();
    push_dec(&mut s, n);
    s
}

/// A decode path under construction.
#[derive(Debug, Clone, PartialEq)]
pub struct DecodePath {
    segs: Vec<PathSegment>,
}

impl DecodePath {
    /// The segments recorded so far.
    pub closed spec fn view(self) -> Seq<PathSegView> {
        Seq::new(self.segs@.len(), |i: int| self.segs@[i]@)
    }

    /// The empty path: the root of the document.
    pub fn new() -> (r: DecodePath)
        ensures
            r@ == Seq::<PathSegView>::empty(),
    {
        let r = DecodePath { segs: Vec::new() };
        proof {
            assert(r@ =~= Seq::<PathSegView>::empty());
        }
        r
    }

    /// Descends into the object field `name`.
    pub fn push_field(&mut self, name: &str)
        ensures
            final(self)@ == old(self)@.push(PathSegView::Field(name@)),
    {
        let owned: String = name.to_owned();
        self.segs.push(PathSegment::Field(owned));
        proof {
            assert(self@ =~= old(self)@.push(PathSegView::Field(name@)));
        }
    }

    /// Descends into the array element `i`.
    pub fn push_index(&mut self, i: u64)
        ensures
            final(self)@ == old(self)@.push(PathSegView::Index(i)),
    {
        self.segs.push(PathSegment::Index(i));
        proof {
            assert(self@ =~= old(self)@.push(PathSegView::Index(i)));
        }
    }

    /// Backs out of the most recent step.
    pub fn pop(&mut self)
        requires
            old(self)@.len() > 0,
        ensures
            final(self)@ == old(self)@.drop_last(),
    {
        self.segs.pop();
        proof {
            assert(self@ =~= old(self)@.drop_last());
        }
    }

    /// Renders the path in dotted and bracketed notation.
    pub fn render(&self) -> (r: String)
        ensures
            r@ == path_render(self@),
    {
        let mut out = String::new();
        let mut i: usize = 0;
        proof {
            assert(self@.take(0) =~= Seq::<PathSegView>::empty());
        }
        while i < self.segs.len()
            invariant
                i <= self.segs@.len(),
                self@.len() == self.segs@.len(),
                out@ == path_render(self@.take(i as int)),
            decreases self.segs@.len() - i,
        {
            let ghost prefix = self@.take(i + 1);
            match &self.segs[i] {
                PathSegment::Field(f) => {
                    if i > 0 {
                        proof {
                            reveal_strlit(".");
                        }
                        out.append(".");
                    }
                    out.append(f.as_str());
                },
                PathSegment::Index(idx) => {
                    proof {
                        reveal_strlit("[");
                        reveal_strlit("]");
                    }
                    out.append("[");
                    push_dec(&mut out, *idx);
                    out.append("]");
                },
            }
            proof {
                assert(prefix.drop_last() =~= self@.take(i as int));
                assert(prefix.last() == self@[i as int]);
                assert(out@ == path_render(prefix));
            }
            i = i + 1;
        }
        proof {
            assert(self@.take(self.segs@.len() as int) =~= self@);
        }
        out
    }
}

} // verus!
