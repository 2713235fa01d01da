use vstd::prelude::*;
use crate::style::Attrs;

verus! {

/// An override of the default attributes on the byte range `[start, end)`.
#[derive(Clone, Copy, Debug, PartialEq, Eq, Structural)]
pub struct Span {
    pub start: usize,
    pub end: usize,
    pub attrs: Attrs,
}

/// The attributes at byte `p`: those of the last span that covers `p`, else
/// the defaults. Later spans are laid over earlier ones.
pub open spec fn attrs_at(defaults: Attrs, spans: Seq<Span>, p: int) -> Attrs
    decreases spans.len(),
{
    if spans.len() == 0 {
        defaults
    } else if spans.last().start <= p < spans.last().end {
        spans.last().attrs
    } else {
        attrs_at(defaults, spans.drop_last(), p)
    }
}

/// A span with both ends moved right by `offset`.
pub open spec fn shifted(s: Span, offset: int) -> Span {
    Span { start: (s.start + offset) as usize, end: (s.end + offset) as usize, attrs: s.attrs }
}

/// The part of a span before byte `index`.
pub open spec fn clip_before(s: Span, index: int) -> Span {
    Span { start: s.start, end: if s.end <= index { s.end } else { index as usize }, attrs: s.attrs }
}

/// The part of a span from byte `index` on, rebased so that `index` becomes 0.
pub open spec fn clip_from(s: Span, index: int) -> Span {
    Span {
        start: if s.start >= index { (s.start - index) as usize } else { 0 },
        end: (s.end - index) as usize,
        attrs: s.attrs,
    }
}

/// The spans that keep a nonempty part before `index`, clipped to it, in order.
pub open spec fn spans_before(spans: Seq<Span>, index: int) -> Seq<Span>
    decreases spans.len(),
{
    if spans.len() == 0 {
        seq![]
    } else {
        let rest = spans_before(spans.drop_last(), index);
        if spans.last().start < index && spans.last().start < spans.last().end {
            rest.push(clip_before(spans.last(), index))
        } else {
            rest
        }
    }
}

/// The spans that keep a nonempty part from `index` on, clipped and rebased, in order.
pub open spec fn spans_from(spans: Seq<Span>, index: int) -> Seq<Span>
    decreases spans.len(),
{
    if spans.len() == 0 {
        seq![]
    } else {
        let rest = spans_from(spans.drop_last(), index);
        if spans.last().end > index && spans.last().start < spans.last().end {
            rest.push(clip_from(spans.last(), index))
        } else {
            rest
        }
    }
}

/// The nonempty spans, each moved right by `offset`, in order.
pub open spec fn shifted_spans(spans: Seq<Span>, offset: int) -> Seq<Span>
    decreases spans.len(),
{
    if spans.len() == 0 {
        seq![]
    } else {
        let rest = shifted_spans(spans.drop_last(), offset);
        if spans.last().start < spans.last().end {
            rest.push(shifted(spans.last(), offset))
        } else {
            rest
        }
    }
}

/// The list `a` after the list `b` of text `b_len` bytes long is appended at
/// byte `len`: where the defaults differ, a span gives the appended text `b`'s
/// defaults, then `b`'s spans follow, moved right by `len`.
pub open spec fn appended_attrs(
    a: (Attrs, Seq<Span>),
    b: (Attrs, Seq<Span>),
    len: int,
    b_len: int,
) -> (Attrs, Seq<Span>) {
    let base = if b.0 != a.0 && 0 < b_len {
        a.1.push(Span { start: len as usize, end: (len + b_len) as usize, attrs: b.0 })
    } else {
        a.1
    };
    (a.0, base + shifted_spans(b.1, len))
}

/// True when some span covers byte `p`.
pub open spec fn covered(spans: Seq<Span>, p: int) -> bool
    decreases spans.len(),
{
    spans.len() > 0 && ((spans.last().start <= p < spans.last().end) || covered(spans.drop_last(), p))
}

proof fn lemma_uncovered_is_default(d: Attrs, spans: Seq<Span>, p: int)
    requires
        !covered(spans, p),
    ensures
        attrs_at(d, spans, p) == d,
    decreases spans.len(),
{
    if spans.len() > 0 {
        lemma_uncovered_is_default(d, spans.drop_last(), p);
    }
}

proof fn lemma_attrs_at_concat(d: Attrs, x: Seq<Span>, y: Seq<Span>, p: int)
    ensures
        attrs_at(d, x + y, p) == if covered(y, p) {
            attrs_at(d, y, p)
        } else {
            attrs_at(d, x, p)
        },
        covered(x + y, p) == (covered(x, p) || covered(y, p)),
    decreases y.len(),
{
    if y.len() == 0 {
        assert(x + y =~= x);
    } else {
        assert((x + y).drop_last() =~= x + y.drop_last());
        assert((x + y).last() == y.last());
        lemma_attrs_at_concat(d, x, y.drop_last(), p);
    }
}

proof fn lemma_spans_before(d: Attrs, s: Seq<Span>, k: int, p: int)
    requires
        0 <= k <= usize::MAX,
    ensures
        p < k ==> attrs_at(d, spans_before(s, k), p) == attrs_at(d, s, p),
        p < k ==> covered(spans_before(s, k), p) == covered(s, p),
        p >= k ==> !covered(spans_before(s, k), p),
    decreases s.len(),
{
    if s.len() > 0 {
        lemma_spans_before(d, s.drop_last(), k, p);
        let rest = spans_before(s.drop_last(), k);
        let c = clip_before(s.last(), k);
        assert(rest.push(c).drop_last() =~= rest);
    }
}

proof fn lemma_spans_from_shifted(d: Attrs, s: Seq<Span>, k: int, p: int)
    requires
        0 <= k <= usize::MAX,
    ensures
        p >= k ==> attrs_at(d, shifted_spans(spans_from(s, k), k), p) == attrs_at(d, s, p),
        p >= k ==> covered(shifted_spans(spans_from(s, k), k), p) == covered(s, p),
        p < k ==> !covered(shifted_spans(spans_from(s, k), k), p),
    decreases s.len(),
{
    if s.len() > 0 {
        lemma_spans_from_shifted(d, s.drop_last(), k, p);
        let rest = spans_from(s.drop_last(), k);
        let l = s.last();
        if l.end > k && l.start < l.end {
            let c = clip_from(l, k);
            assert(rest.push(c).drop_last() =~= rest);
            assert(c.start < c.end);
            let sh = shifted_spans(rest, k);
            assert(shifted_spans(rest.push(c), k) == sh.push(shifted(c, k)));
            assert(sh.push(shifted(c, k)).drop_last() =~= sh);
            assert(shifted(c, k).end == l.end);
            assert(shifted(c, k).start == if l.start >= k { l.start } else { k as usize });
        }
    }
}

/// The spans split off at `k` end at most `usize::MAX - k`, so moving them
/// back by `k` cannot overflow.
pub proof fn lemma_spans_from_fit(s: Seq<Span>, k: int)
    requires
        0 <= k <= usize::MAX,
    ensures
        forall|i: int|
            0 <= i < spans_from(s, k).len() ==> {
                &&& #[trigger] spans_from(s, k)[i].start + k <= usize::MAX
                &&& spans_from(s, k)[i].end + k <= usize::MAX
            },
    decreases s.len(),
{
    if s.len() > 0 {
        lemma_spans_from_fit(s.drop_last(), k);
        let rest = spans_from(s.drop_last(), k);
        let l = s.last();
        if l.end > k && l.start < l.end {
            let c = clip_from(l, k);
            assert forall|i: int| 0 <= i < rest.push(c).len() implies {
                &&& #[trigger] rest.push(c)[i].start + k <= usize::MAX
                &&& rest.push(c)[i].end + k <= usize::MAX
            } by {
                if i < rest.len() {
                    assert(rest.push(c)[i] == rest[i]);
                }
            }
        }
    }
}

/// Splitting a list at byte `k` and appending the second part back onto the
/// first at byte `k` gives the same attributes at every byte, though a span
/// that crossed `k` comes back as two.
pub proof fn lemma_split_append_coverage(a: (Attrs, Seq<Span>), k: usize, tail_len: int)
    ensures
        forall|p: int|
            #![trigger attrs_at(a.0, a.1, p)]
            attrs_at(
                appended_attrs((a.0, spans_before(a.1, k as int)), (a.0, spans_from(a.1, k as int)), k as int, tail_len).0,
                appended_attrs((a.0, spans_before(a.1, k as int)), (a.0, spans_from(a.1, k as int)), k as int, tail_len).1,
                p,
            ) == attrs_at(a.0, a.1, p),
{
    let x = spans_before(a.1, k as int);
    let y = shifted_spans(spans_from(a.1, k as int), k as int);
    let joined = appended_attrs((a.0, x), (a.0, spans_from(a.1, k as int)), k as int, tail_len);
    assert(joined.1 == x + y);
    assert forall|p: int| #![trigger attrs_at(a.0, a.1, p)] attrs_at(joined.0, joined.1, p) == attrs_at(a.0, a.1, p) by {
        lemma_attrs_at_concat(a.0, x, y, p);
        lemma_spans_before(a.0, a.1, k as int, p);
        lemma_spans_from_shifted(a.0, a.1, k as int, p);
        if !covered(y, p) && p >= k {
            lemma_uncovered_is_default(a.0, a.1, p);
            lemma_uncovered_is_default(a.0, x, p);
        }
    }
}

/// Default attributes and an ordered list of overriding spans.
#[derive(Clone, Debug)]
pub struct AttrsList {
    defaults: Attrs,
    spans: Vec<Span>,
}

impl View for AttrsList {
    type V = (Attrs, Seq<Span>);

    closed spec fn view(&self) -> (Attrs, Seq<Span>) {
        (self.defaults, self.spans@)
    }
}

impl AttrsList {
    /// The attributes at byte `p`.
    pub open spec fn attrs_at_spec(&self, p: int) -> Attrs {
        attrs_at(self@.0, self@.1, p)
    }

    /// A list with the given defaults and no spans.
    pub fn new(defaults: &Attrs) -> (r: AttrsList)
        ensures
            r@ == (*defaults, Seq::<Span>::empty()),
    {
        AttrsList { defaults: *defaults, spans: Vec::new() }
    }

    /// The attributes of text that no span covers.
    pub fn defaults(&self) -> (r: Attrs)
        ensures
            r == self@.0,
    {
        self.defaults
    }

    /// The spans, in the order they were added.
    pub fn spans(&self) -> (r: &Vec<Span>)
        ensures
            r@ == self@.1,
    {
        &self.spans
    }

    /// Removes every span, keeping the defaults.
    pub fn clear_spans(&mut self)
        ensures
            final(self)@ == (old(self)@.0, Seq::<Span>::empty()),
    {
        self.spans.clear();
    }

    /// Lays `attrs` over the byte range `[start, end)`. An empty range changes nothing.
    pub fn add_span(&mut self, start: usize, end: usize, attrs: &Attrs)
        ensures
            final(self)@ == if start < end {
                (old(self)@.0, old(self)@.1.push(Span { start, end, attrs: *attrs }))
            } else {
                old(self)@
            },
    {
        if start < end {
            self.spans.push(Span { start, end, attrs: *attrs });
        }
    }

    /// The attributes at byte `index`.
    pub fn get_span(&self, index: usize) -> (r: Attrs)
        ensures
            r == self.attrs_at_spec(index as int),
    {
        let mut i: usize = self.spans.len();
        assert(self.spans@.subrange(0, i as int) =~= self.spans@);
        while i > 0
            invariant
                i <= self.spans@.len(),
                attrs_at(self.defaults, self.spans@, index as int)
                    == attrs_at(self.defaults, self.spans@.subrange(0, i as int), index as int),
            decreases i,
        {
            let s = self.spans[i - 1];
            let ghost sub = self.spans@.subrange(0, i as int);
            assert(sub.drop_last() =~= self.spans@.subrange(0, i - 1));
            if s.start <= index && index < s.end {
                return s.attrs;
            }
            i = i - 1;
        }
        self.defaults
    }

    /// Splits the list at byte `index`: this list keeps what lies before it,
    /// the returned list gets what lies from it on, rebased to start at 0.
    /// Both keep the defaults.
    pub fn split_off(&mut self, index: usize) -> (r: AttrsList)
        ensures
            final(self)@ == (old(self)@.0, spans_before(old(self)@.1, index as int)),
            r@ == (old(self)@.0, spans_from(old(self)@.1, index as int)),
    {
        let mut before: Vec<Span> = Vec::new();
        let mut from: Vec<Span> = Vec::new();
        let mut i: usize = 0;
        while i < self.spans.len()
            invariant
                i <= self.spans@.len(),
                before@ == spans_before(self.spans@.subrange(0, i as int), index as int),
                from@ == spans_from(self.spans@.subrange(0, i as int), index as int),
            decreases self.spans@.len() - i,
        {
            let s = self.spans[i];
            let ghost next = self.spans@.subrange(0, i + 1);
            assert(next.drop_last() =~= self.spans@.subrange(0, i as int));
            if s.start < index && s.start < s.end {
                let end = if s.end <= index { s.end } else { index };
                before.push(Span { start: s.start, end, attrs: s.attrs });
            }
            if s.end > index && s.start < s.end {
                let start = if s.start >= index { s.start - index } else { 0 };
                from.push(Span { start, end: s.end - index, attrs: s.attrs });
            }
            i = i + 1;
        }
        assert(self.spans@.subrange(0, self.spans@.len() as int) =~= self.spans@);
        self.spans = before;
        AttrsList { defaults: self.defaults, spans: from }
    }
}

impl PartialEq for AttrsList {
    fn eq(&self, other: &AttrsList) -> (r: bool)
        ensures
            r == (self@ == other@),
    {
        if self.defaults != other.defaults || self.spans.len() != other.spans.len() {
            return false;
        }
        let mut i: usize = 0;
        while i < self.spans.len()
            invariant
                i <= self.spans@.len(),
                self.spans@.len() == other.spans@.len(),
                self.spans@.subrange(0, i as int) == other.spans@.subrange(0, i as int),
            decreases self.spans@.len() - i,
        {
            if self.spans[i] != other.spans[i] {
                assert(self.spans@[i as int] != other.spans@[i as int]);
                assert(self@ != other@);
                return false;
            }
            assert(self.spans@.subrange(0, i + 1) =~= self.spans@.subrange(0, i as int).push(self.spans@[i as int]));
            assert(other.spans@.subrange(0, i + 1) =~= other.spans@.subrange(0, i as int).push(other.spans@[i as int]));
            i = i + 1;
        }
        assert(self.spans@ =~= self.spans@.subrange(0, i as int));
        assert(other.spans@ =~= other.spans@.subrange(0, i as int));
        true
    }
}

impl vstd::std_specs::cmp::PartialEqSpecImpl for AttrsList {
    open spec fn obeys_eq_spec() -> bool {
        true
    }

    open spec fn eq_spec(&self, other: &AttrsList) -> bool {
        self@ == other@
    }
}

} // verus!
