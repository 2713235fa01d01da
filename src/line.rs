use vstd::prelude::*;
use crate::attrs::{
    AttrsList, Span, appended_attrs, attrs_at, lemma_spans_from_fit, lemma_split_append_coverage, shifted_spans, spans_before,
    spans_from,
};
use crate::cached::Cached;
use crate::engine::LineEngine;
use crate::style::{Align, Attrs, LineEnding, Shaping};
use crate::text::{
    byte_len, bytes_of, clear, lemma_bytes_of_concat, lemma_bytes_of_injective, push_str, split_off, str_eq,
};

verus! {

/// Everything a line holds, as plain values.
pub ghost struct LineState<S, R> {
    pub text: Seq<char>,
    pub ending: LineEnding,
    pub attrs: (Attrs, Seq<Span>),
    pub align: Option<Align>,
    pub shaping: Shaping,
    pub metadata: Option<usize>,
    pub shape: Cached<S>,
    pub layout: Cached<Vec<R>>,
}

impl<S, R> LineState<S, R> {
    /// The state after both caches are marked stale.
    pub open spec fn stale_shape(self) -> LineState<S, R> {
        LineState { shape: self.shape.unused_spec(), layout: self.layout.unused_spec(), ..self }
    }

    /// The state after the layout cache alone is marked stale.
    pub open spec fn stale_layout(self) -> LineState<S, R> {
        LineState { layout: self.layout.unused_spec(), ..self }
    }

    /// The state after the content identity changed: caches stale, metadata cleared.
    pub open spec fn content_changed(self) -> LineState<S, R> {
        LineState { metadata: None, ..self.stale_shape() }
    }

    /// The result and next state of `set_text`.
    pub open spec fn set_text_spec(
        self,
        text: Seq<char>,
        ending: LineEnding,
        attrs: (Attrs, Seq<Span>),
    ) -> (bool, LineState<S, R>) {
        if text != self.text || ending != self.ending || attrs != self.attrs {
            (true, LineState { text, ending, attrs, ..self }.content_changed())
        } else {
            (false, self)
        }
    }

    /// The result and next state of `set_ending`.
    pub open spec fn set_ending_spec(self, ending: LineEnding) -> (bool, LineState<S, R>) {
        if ending != self.ending {
            (true, LineState { ending, ..self }.stale_shape())
        } else {
            (false, self)
        }
    }

    /// The result and next state of `set_attrs_list`.
    pub open spec fn set_attrs_spec(self, attrs: (Attrs, Seq<Span>)) -> (bool, LineState<S, R>) {
        if attrs != self.attrs {
            (true, LineState { attrs, ..self }.stale_shape())
        } else {
            (false, self)
        }
    }

    /// The result and next state of `set_align`.
    pub open spec fn set_align_spec(self, align: Option<Align>) -> (bool, LineState<S, R>) {
        if align != self.align {
            (true, LineState { align, ..self }.stale_layout())
        } else {
            (false, self)
        }
    }

    /// The state after `reset_new`: the inputs of a fresh line, with the
    /// stale artifacts kept as storage.
    pub open spec fn reset_new_spec(
        self,
        text: Seq<char>,
        ending: LineEnding,
        attrs: (Attrs, Seq<Span>),
        shaping: Shaping,
    ) -> LineState<S, R> {
        LineState {
            shape: self.shape.unused_spec(),
            layout: self.layout.unused_spec(),
            ..LineState::<S, R>::fresh(text, ending, attrs, shaping)
        }
    }

    /// The state after `shape` returned `shape`: unchanged if the cached shape
    /// was current, else `shape` is current and the layout stale.
    pub open spec fn after_shape(self, shape: S) -> LineState<S, R> {
        if self.shape is Used {
            self
        } else {
            LineState { shape: Cached::Used(shape), layout: self.layout.unused_spec(), ..self }
        }
    }

    /// A current layout was derived from a current shape.
    pub open spec fn wf(self) -> bool {
        self.layout is Used ==> self.shape is Used
    }

    /// The state of a line made fresh from these inputs.
    pub open spec fn fresh(
        text: Seq<char>,
        ending: LineEnding,
        attrs: (Attrs, Seq<Span>),
        shaping: Shaping,
    ) -> LineState<S, R> {
        LineState {
            text,
            ending,
            attrs,
            align: None,
            shaping,
            metadata: None,
            shape: Cached::Empty,
            layout: Cached::Empty,
        }
    }
}

/// A line (or paragraph) of text that is shaped and laid out, with both
/// results cached.
#[derive(Clone, Debug)]
pub struct BufferLine<S, R> {
    text: String,
    ending: LineEnding,
    attrs_list: AttrsList,
    align: Option<Align>,
    shape_opt: Cached<S>,
    layout_opt: Cached<Vec<R>>,
    shaping: Shaping,
    metadata: Option<usize>,
}

impl<S, R> View for BufferLine<S, R> {
    type V = LineState<S, R>;

    closed spec fn view(&self) -> LineState<S, R> {
        LineState {
            text: self.text@,
            ending: self.ending,
            attrs: self.attrs_list@,
            align: self.align,
            shaping: self.shaping,
            metadata: self.metadata,
            shape: self.shape_opt,
            layout: self.layout_opt,
        }
    }
}

impl<S, R> BufferLine<S, R> {
    /// A new line with the given text and attributes; nothing is cached yet.
    pub fn new(text: &str, ending: LineEnding, attrs_list: AttrsList, shaping: Shaping) -> (r: Self)
        ensures
            r@ == LineState::<S, R>::fresh(text@, ending, attrs_list@, shaping),
            r@.wf(),
    {
        BufferLine {
            text: text.to_owned(),
            ending,
            attrs_list,
            align: None,
            shape_opt: Cached::Empty,
            layout_opt: Cached::Empty,
            shaping,
            metadata: None,
        }
    }

    /// Reinitialises this line with new inputs, keeping the storage of its
    /// cached artifacts for reuse. Alignment and metadata are cleared.
    pub fn reset_new(&mut self, text: &str, ending: LineEnding, attrs_list: AttrsList, shaping: Shaping)
        ensures
            final(self)@ == old(self)@.reset_new_spec(text@, ending, attrs_list@, shaping),
    {
        clear(&mut self.text);
        push_str(&mut self.text, text);
        self.ending = ending;
        self.attrs_list = attrs_list;
        self.align = None;
        self.shape_opt.set_unused();
        self.layout_opt.set_unused();
        self.shaping = shaping;
        self.metadata = None;
    }

    /// The text.
    pub fn text(&self) -> (r: &str)
        ensures
            r@ == self@.text,
    {
        self.text.as_str()
    }

    /// Replaces text, ending and attributes if any of them differs, and then
    /// marks the content changed. Returns whether anything was replaced.
    pub fn set_text(&mut self, text: &str, ending: LineEnding, attrs_list: AttrsList) -> (r: bool)
        ensures
            (r, final(self)@) == old(self)@.set_text_spec(text@, ending, attrs_list@),
    {
        if !str_eq(text, self.text.as_str()) || ending != self.ending || attrs_list != self.attrs_list {
            clear(&mut self.text);
            push_str(&mut self.text, text);
            assert(self.text@ =~= text@);
            self.ending = ending;
            self.attrs_list = attrs_list;
            self.reset();
            true
        } else {
            false
        }
    }

    /// Consumes the line, returning its text.
    pub fn into_text(self) -> (r: String)
        ensures
            r@ == self@.text,
    {
        self.text
    }

    /// The line ending.
    pub fn ending(&self) -> (r: LineEnding)
        ensures
            r == self@.ending,
    {
        self.ending
    }

    /// Replaces the line ending if it differs, marking both caches stale.
    /// Metadata is kept. Returns whether it was replaced.
    pub fn set_ending(&mut self, ending: LineEnding) -> (r: bool)
        ensures
            (r, final(self)@) == old(self)@.set_ending_spec(ending),
    {
        if ending != self.ending {
            self.ending = ending;
            self.reset_shaping();
            true
        } else {
            false
        }
    }

    /// The attribute spans.
    pub fn attrs_list(&self) -> (r: &AttrsList)
        ensures
            r@ == self@.attrs,
    {
        &self.attrs_list
    }

    /// Replaces the attribute spans if they differ, marking both caches stale.
    /// Metadata is kept. Returns whether they were replaced.
    pub fn set_attrs_list(&mut self, attrs_list: AttrsList) -> (r: bool)
        ensures
            (r, final(self)@) == old(self)@.set_attrs_spec(attrs_list@),
    {
        if attrs_list != self.attrs_list {
            self.attrs_list = attrs_list;
            self.reset_shaping();
            true
        } else {
            false
        }
    }

    /// The alignment override; `None` lets the layout engine pick one from the
    /// text direction.
    pub fn align(&self) -> (r: Option<Align>)
        ensures
            r == self@.align,
    {
        self.align
    }

    /// Replaces the alignment if it differs, marking only the layout stale.
    /// Returns whether it was replaced.
    pub fn set_align(&mut self, align: Option<Align>) -> (r: bool)
        ensures
            (r, final(self)@) == old(self)@.set_align_spec(align),
    {
        if align != self.align {
            self.align = align;
            self.reset_layout();
            true
        } else {
            false
        }
    }

    /// Appends `other` at the end of this line.
    ///
    /// Where the two lines' default attributes differ, the appended text gets
    /// a span with `other`'s defaults; `other`'s spans follow, moved by this
    /// line's byte length. The content is then marked changed. `other`'s
    /// alignment and shaping mode are dropped.
    pub fn append(&mut self, other: Self)
        requires
            byte_len(old(self)@.text) + byte_len(other@.text) <= usize::MAX,
            forall|i: int|
                0 <= i < other@.attrs.1.len() ==> {
                    &&& other@.attrs.1[i].start + byte_len(old(self)@.text) <= usize::MAX
                    &&& other@.attrs.1[i].end + byte_len(old(self)@.text) <= usize::MAX
                },
        ensures
            final(self)@ == (LineState {
                text: old(self)@.text + other@.text,
                attrs: appended_attrs(
                    old(self)@.attrs,
                    other@.attrs,
                    byte_len(old(self)@.text) as int,
                    byte_len(other@.text) as int,
                ),
                ..old(self)@
            }).content_changed(),
    {
        let len = self.text.as_str().len();
        let other_len = other.text.as_str().len();
        push_str(&mut self.text, other.text.as_str());
        let defaults = other.attrs_list.defaults();
        if defaults != self.attrs_list.defaults() {
            self.attrs_list.add_span(len, len + other_len, &defaults);
        }
        let ghost base = self.attrs_list@.1;
        let spans = other.attrs_list.spans();
        let mut i: usize = 0;
        while i < spans.len()
            invariant
                i <= spans@.len(),
                spans@ == other@.attrs.1,
                len == byte_len(old(self)@.text),
                forall|j: int|
                    0 <= j < spans@.len() ==> {
                        &&& spans@[j].start + len <= usize::MAX
                        &&& spans@[j].end + len <= usize::MAX
                    },
                self.attrs_list@ == (old(self)@.attrs.0, base + shifted_spans(spans@.subrange(0, i as int), len as int)),
                self@ == (LineState { text: old(self)@.text + other@.text, attrs: self@.attrs, ..old(self)@ }),
            decreases spans@.len() - i,
        {
            let s = spans[i];
            let ghost next = spans@.subrange(0, i + 1);
            assert(next.drop_last() =~= spans@.subrange(0, i as int));
            self.attrs_list.add_span(s.start + len, s.end + len, &s.attrs);
            assert(base + shifted_spans(next, len as int) =~= self.attrs_list@.1);
            i = i + 1;
        }
        assert(spans@.subrange(0, i as int) =~= spans@);
        self.reset();
    }

    /// Splits the line at byte `index`. This line keeps the text and spans
    /// before it and is marked changed; the returned line gets the rest, with
    /// spans rebased to start at 0, this line's ending, shaping mode and
    /// alignment, and nothing cached.
    pub fn split_off(&mut self, index: usize) -> (r: Self)
        requires
            vstd::utf8::is_char_boundary(bytes_of(old(self)@.text), index as int),
        ensures
            bytes_of(final(self)@.text) == bytes_of(old(self)@.text).subrange(0, index as int),
            bytes_of(r@.text) == bytes_of(old(self)@.text).subrange(
                index as int,
                byte_len(old(self)@.text) as int,
            ),
            final(self)@ == (LineState {
                text: final(self)@.text,
                attrs: (old(self)@.attrs.0, spans_before(old(self)@.attrs.1, index as int)),
                ..old(self)@
            }).content_changed(),
            r@ == (LineState {
                align: old(self)@.align,
                ..LineState::<S, R>::fresh(
                    r@.text,
                    old(self)@.ending,
                    (old(self)@.attrs.0, spans_from(old(self)@.attrs.1, index as int)),
                    old(self)@.shaping,
                )
            }),
    {
        let text = split_off(&mut self.text, index);
        let attrs_list = self.attrs_list.split_off(index);
        self.reset();
        BufferLine {
            text,
            ending: self.ending,
            attrs_list,
            align: self.align,
            shape_opt: Cached::Empty,
            layout_opt: Cached::Empty,
            shaping: self.shaping,
            metadata: None,
        }
    }

    /// Marks the content changed: clears metadata and marks both caches stale.
    pub fn reset(&mut self)
        ensures
            final(self)@ == old(self)@.content_changed(),
    {
        self.metadata = None;
        self.reset_shaping();
    }

    /// Marks both caches stale.
    pub fn reset_shaping(&mut self)
        ensures
            final(self)@ == old(self)@.stale_shape(),
    {
        self.shape_opt.set_unused();
        self.reset_layout();
    }

    /// Marks the layout cache stale.
    pub fn reset_layout(&mut self)
        ensures
            final(self)@ == old(self)@.stale_layout(),
    {
        self.layout_opt.set_unused();
    }

    /// The shape, computed by `engine` only if the cached one is stale.
    ///
    /// A recomputation hands the engine the stale shape's storage, caches the
    /// result as current and marks the layout stale, since it was derived from
    /// another shape. A current shape is returned with nothing changed.
    pub fn shape<E: LineEngine<S, R>>(&mut self, engine: &mut E, tab_width: u16) -> (r: &S)
        ensures
            final(self)@ == old(self)@.after_shape(*r),
            final(self)@.shape == Cached::Used(*r),
            old(self)@.shape is Used ==> *final(engine) == *old(engine),
            !(old(self)@.shape is Used) ==> *r == E::shaped(
                old(self)@.text,
                old(self)@.attrs,
                old(self)@.shaping,
                tab_width,
            ),
    {
        if self.shape_opt.is_unused() {
            let scratch = self.shape_opt.take_unused();
            let line = engine.shape_line(scratch, self.text.as_str(), &self.attrs_list, self.shaping, tab_width);
            self.shape_opt.set_used(line);
            self.layout_opt.set_unused();
        }
        self.shape_opt.get().unwrap()
    }

    /// The cached shape, if it is current.
    pub fn shape_opt(&self) -> (r: Option<&S>)
        ensures
            r == (match self@.shape {
                Cached::Used(s) => Some(&s),
                _ => None::<&S>,
            }),
    {
        self.shape_opt.get()
    }

    /// The layout rows, computed by `engine` only if the cached ones are stale.
    ///
    /// A recomputation first brings the shape up to date, as `shape` does, then
    /// hands the engine that shape, the alignment and the stale rows' storage,
    /// and caches the result as current. Current rows are returned with nothing
    /// changed.
    pub fn layout<E: LineEngine<S, R>>(&mut self, engine: &mut E, tab_width: u16) -> (r: &Vec<R>)
        requires
            old(self)@.wf(),
        ensures
            old(self)@.layout is Used ==> final(self)@ == old(self)@,
            !(old(self)@.layout is Used) ==> {
                &&& final(self)@.shape is Used
                &&& old(self)@.shape is Used ==> final(self)@.shape == old(self)@.shape
                &&& final(self)@ == (LineState {
                    shape: final(self)@.shape,
                    layout: Cached::Used(*r),
                    ..old(self)@
                })
            },
            final(self)@.layout == Cached::Used(*r),
            final(self)@.shape is Used,
            old(self)@.layout is Used ==> *final(engine) == *old(engine),
            !(old(self)@.layout is Used) ==> final(self)@.shape == old(self)@.after_shape(
                E::shaped(old(self)@.text, old(self)@.attrs, old(self)@.shaping, tab_width),
            ).shape,
            !(old(self)@.layout is Used) ==> r@ == E::laid_out(final(self)@.shape->Used_0, old(self)@.align),
    {
        if self.layout_opt.is_unused() {
            let align = self.align;
            let scratch = match self.layout_opt.take_unused() {
                Some(rows) => rows,
                None => Vec::with_capacity(1),
            };
            let shape = self.shape(engine, tab_width);
            let rows = engine.layout_line(shape, align, scratch);
            self.layout_opt.set_used(rows);
        }
        self.layout_opt.get().unwrap()
    }

    /// The cached layout rows, if they are current.
    pub fn layout_opt(&self) -> (r: Option<&Vec<R>>)
        ensures
            r == (match self@.layout {
                Cached::Used(rows) => Some(&rows),
                _ => None::<&Vec<R>>,
            }),
    {
        self.layout_opt.get()
    }

    /// The caller's tag, cleared whenever the content identity changes.
    pub fn metadata(&self) -> (r: Option<usize>)
        ensures
            r == self@.metadata,
    {
        self.metadata
    }

    /// Sets the caller's tag.
    pub fn set_metadata(&mut self, metadata: usize)
        ensures
            final(self)@ == (LineState { metadata: Some(metadata), ..old(self)@ }),
    {
        self.metadata = Some(metadata);
    }

    /// An empty line shell, to be filled by `reset_new` before use.
    pub fn empty() -> (r: Self)
        ensures
            r@ == LineState::<S, R>::fresh(
                Seq::<char>::empty(),
                LineEnding::Lf,
                (Attrs::new_spec(), Seq::<Span>::empty()),
                Shaping::Advanced,
            ),
            r@.wf(),
    {
        BufferLine {
            text: String::new(),
            ending: LineEnding::Lf,
            attrs_list: AttrsList::new(&Attrs::new()),
            align: None,
            shape_opt: Cached::Empty,
            layout_opt: Cached::Empty,
            shaping: Shaping::Advanced,
            metadata: None,
        }
    }

    /// Takes the attribute spans out for reuse, leaving default attributes
    /// and no spans. The line must be `reset_new` before further use.
    pub fn reclaim_attrs(&mut self) -> (r: AttrsList)
        ensures
            r@ == old(self)@.attrs,
            final(self)@ == (LineState { attrs: (Attrs::new_spec(), Seq::<Span>::empty()), ..old(self)@ }),
    {
        let mut attrs_list = AttrsList::new(&Attrs::new());
        core::mem::swap(&mut self.attrs_list, &mut attrs_list);
        attrs_list
    }

    /// Takes the text storage out for reuse, emptied. The line is left with
    /// empty text and must be `reset_new` before further use.
    pub fn reclaim_text(&mut self) -> (r: String)
        ensures
            r@ == Seq::<char>::empty(),
            final(self)@ == (LineState { text: Seq::<char>::empty(), ..old(self)@ }),
    {
        let mut text = String::new();
        core::mem::swap(&mut self.text, &mut text);
        clear(&mut text);
        text
    }
}

/// Setting text, ending or attributes to the values the line already has
/// reports no change and leaves the line, caches included, as it was.
pub proof fn lemma_same_values_change_nothing<S, R>(s: LineState<S, R>)
    ensures
        s.set_text_spec(s.text, s.ending, s.attrs) == (false, s),
        s.set_ending_spec(s.ending) == (false, s),
        s.set_attrs_spec(s.attrs) == (false, s),
{
}

/// Every change to text, ending or attributes, every reset, append and split
/// leaves neither a current shape nor a current layout.
pub proof fn lemma_changes_stale_both_caches<S, R>(
    s: LineState<S, R>,
    text: Seq<char>,
    ending: LineEnding,
    attrs: (Attrs, Seq<Span>),
    shaping: Shaping,
)
    ensures
        s.set_text_spec(text, ending, attrs).0 ==> !(s.set_text_spec(text, ending, attrs).1.shape is Used)
            && !(s.set_text_spec(text, ending, attrs).1.layout is Used),
        s.set_ending_spec(ending).0 ==> !(s.set_ending_spec(ending).1.shape is Used)
            && !(s.set_ending_spec(ending).1.layout is Used),
        s.set_attrs_spec(attrs).0 ==> !(s.set_attrs_spec(attrs).1.shape is Used)
            && !(s.set_attrs_spec(attrs).1.layout is Used),
        !(s.reset_new_spec(text, ending, attrs, shaping).shape is Used),
        !(s.reset_new_spec(text, ending, attrs, shaping).layout is Used),
        !(s.content_changed().shape is Used) && !(s.content_changed().layout is Used),
{
}

/// Changing the alignment keeps the shape as it was and leaves no current layout.
pub proof fn lemma_align_stales_layout_only<S, R>(s: LineState<S, R>, align: Option<Align>)
    ensures
        s.set_align_spec(align).0 ==> s.set_align_spec(align).1.shape == s.shape
            && !(s.set_align_spec(align).1.layout is Used),
{
}

/// Metadata survives a change of ending or attributes and is cleared by a
/// change of text.
pub proof fn lemma_metadata_scoping<S, R>(
    s: LineState<S, R>,
    metadata: usize,
    text: Seq<char>,
    ending: LineEnding,
    attrs: (Attrs, Seq<Span>),
)
    ensures
        (LineState { metadata: Some(metadata), ..s }).set_ending_spec(ending).1.metadata == Some(metadata),
        (LineState { metadata: Some(metadata), ..s }).set_attrs_spec(attrs).1.metadata == Some(metadata),
        text != s.text ==> (LineState { metadata: Some(metadata), ..s }).set_text_spec(
            text,
            ending,
            attrs,
        ).1.metadata is None,
{
}

/// Recomputing a stale shape leaves no current layout, whatever layout was
/// current before.
pub proof fn lemma_recomputed_shape_stales_layout<S, R>(s: LineState<S, R>, shape: S)
    ensures
        !(s.shape is Used) ==> !(s.after_shape(shape).layout is Used),
        !(s.shape is Used) ==> s.after_shape(shape).shape == Cached::<S>::Used(shape),
{
}

/// After `reset_new` a line holds exactly the inputs and metadata of a fresh
/// line made from the same values, and neither cache is current; only the
/// storage kept for reuse differs.
pub proof fn lemma_reset_matches_fresh<S, R>(
    s: LineState<S, R>,
    text: Seq<char>,
    ending: LineEnding,
    attrs: (Attrs, Seq<Span>),
    shaping: Shaping,
)
    ensures
        (LineState {
            shape: Cached::<S>::Empty,
            layout: Cached::<Vec<R>>::Empty,
            ..s.reset_new_spec(text, ending, attrs, shaping)
        }) == LineState::<S, R>::fresh(text, ending, attrs, shaping),
        !(s.reset_new_spec(text, ending, attrs, shaping).shape is Used),
        !(s.reset_new_spec(text, ending, attrs, shaping).layout is Used),
{
}

/// Every change keeps a current layout tied to a current shape, and a fresh
/// line starts that way.
pub proof fn lemma_changes_keep_wf<S, R>(
    s: LineState<S, R>,
    text: Seq<char>,
    ending: LineEnding,
    attrs: (Attrs, Seq<Span>),
    align: Option<Align>,
    shaping: Shaping,
    metadata: usize,
    shape: S,
)
    requires
        s.wf(),
    ensures
        LineState::<S, R>::fresh(text, ending, attrs, shaping).wf(),
        s.set_text_spec(text, ending, attrs).1.wf(),
        s.set_ending_spec(ending).1.wf(),
        s.set_attrs_spec(attrs).1.wf(),
        s.set_align_spec(align).1.wf(),
        s.reset_new_spec(text, ending, attrs, shaping).wf(),
        s.content_changed().wf(),
        s.stale_shape().wf(),
        s.stale_layout().wf(),
        (LineState { metadata: Some(metadata), ..s }).wf(),
        s.after_shape(shape).wf(),
{
}

/// A stale shape stays stale under every change until the shape is
/// recomputed, and a stale layout stays stale under every change, a shape
/// recomputation included, until the layout is recomputed.
pub proof fn lemma_stale_stays_stale<S, R>(
    s: LineState<S, R>,
    text: Seq<char>,
    ending: LineEnding,
    attrs: (Attrs, Seq<Span>),
    align: Option<Align>,
    shaping: Shaping,
    metadata: usize,
    shape: S,
)
    ensures
        !(s.shape is Used) ==> {
            &&& !(s.set_text_spec(text, ending, attrs).1.shape is Used)
            &&& !(s.set_ending_spec(ending).1.shape is Used)
            &&& !(s.set_attrs_spec(attrs).1.shape is Used)
            &&& !(s.set_align_spec(align).1.shape is Used)
            &&& !(s.reset_new_spec(text, ending, attrs, shaping).shape is Used)
            &&& !(s.content_changed().shape is Used)
            &&& !(s.stale_layout().shape is Used)
            &&& !((LineState { metadata: Some(metadata), ..s }).shape is Used)
        },
        !(s.layout is Used) ==> {
            &&& !(s.set_text_spec(text, ending, attrs).1.layout is Used)
            &&& !(s.set_ending_spec(ending).1.layout is Used)
            &&& !(s.set_attrs_spec(attrs).1.layout is Used)
            &&& !(s.set_align_spec(align).1.layout is Used)
            &&& !(s.reset_new_spec(text, ending, attrs, shaping).layout is Used)
            &&& !(s.content_changed().layout is Used)
            &&& !(s.stale_shape().layout is Used)
            &&& !((LineState { metadata: Some(metadata), ..s }).layout is Used)
            &&& !(s.after_shape(shape).layout is Used)
        },
{
}

/// After `reset_new`, recomputing shape and layout hands a deterministic
/// engine the same values as on a fresh line made from the same inputs, so
/// both give the same shape and the same rows; the stale storage kept for
/// reuse does not enter the results.
pub proof fn lemma_reset_results_match_fresh<S, R, E: LineEngine<S, R>>(
    s: LineState<S, R>,
    text: Seq<char>,
    ending: LineEnding,
    attrs: (Attrs, Seq<Span>),
    shaping: Shaping,
    tab_width: u16,
)
    ensures
        ({
            let a = s.reset_new_spec(text, ending, attrs, shaping);
            let f = LineState::<S, R>::fresh(text, ending, attrs, shaping);
            &&& a.after_shape(E::shaped(a.text, a.attrs, a.shaping, tab_width)).shape
                == f.after_shape(E::shaped(f.text, f.attrs, f.shaping, tab_width)).shape
            &&& E::laid_out(E::shaped(a.text, a.attrs, a.shaping, tab_width), a.align)
                == E::laid_out(E::shaped(f.text, f.attrs, f.shaping, tab_width), f.align)
        }),
{
}

/// Splitting a line at a character boundary and appending the split-off line
/// back gives the text the line had before, and the same attributes at every byte.
pub proof fn lemma_split_then_append(
    text: Seq<char>,
    attrs: (Attrs, Seq<Span>),
    index: usize,
    head: Seq<char>,
    tail: Seq<char>,
)
    requires
        vstd::utf8::is_char_boundary(bytes_of(text), index as int),
        bytes_of(head) == bytes_of(text).subrange(0, index as int),
        bytes_of(tail) == bytes_of(text).subrange(index as int, byte_len(text) as int),
    ensures
        head + tail == text,
        byte_len(head) == index,
        byte_len(head) + byte_len(tail) == byte_len(text),
        forall|i: int|
            0 <= i < spans_from(attrs.1, index as int).len() ==> {
                &&& #[trigger] spans_from(attrs.1, index as int)[i].start + byte_len(head) <= usize::MAX
                &&& spans_from(attrs.1, index as int)[i].end + byte_len(head) <= usize::MAX
            },
        forall|p: int|
            #![trigger attrs_at(attrs.0, attrs.1, p)]
            attrs_at(
                appended_attrs((attrs.0, spans_before(attrs.1, index as int)), (attrs.0, spans_from(attrs.1, index as int)), byte_len(head) as int, byte_len(tail) as int).0,
                appended_attrs((attrs.0, spans_before(attrs.1, index as int)), (attrs.0, spans_from(attrs.1, index as int)), byte_len(head) as int, byte_len(tail) as int).1,
                p,
            ) == attrs_at(attrs.0, attrs.1, p),
{
    vstd::utf8::encode_utf8_valid_utf8(text);
    assert(index <= byte_len(text));
    lemma_bytes_of_concat(head, tail);
    assert(bytes_of(head) + bytes_of(tail) =~= bytes_of(text));
    lemma_bytes_of_injective(head + tail, text);
    lemma_split_append_coverage(attrs, index, byte_len(tail) as int);
    lemma_spans_from_fit(attrs.1, index as int);
}

} // verus!
