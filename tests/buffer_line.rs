use buffer_line::{Align, Attrs, AttrsList, BufferLine, LineEngine, LineEnding, Shaping, Span, Style};
use vstd::seq::Seq;

/// A deterministic engine: a shape is the text with a summary of its inputs,
/// a layout is one row per 4 bytes of shape, tagged with the alignment.
#[derive(Default)]
struct TestEngine {
    shapes: usize,
    layouts: usize,
    reused_shapes: usize,
    reused_layouts: usize,
}

impl LineEngine<String, usize> for TestEngine {
    // Specification-only items: never called at run time.
    fn shaped(_text: Seq<char>, _attrs: (Attrs, Seq<Span>), _shaping: Shaping, _tab_width: u16) -> String {
        unreachable!()
    }

    fn laid_out(_shape: String, _align: Option<Align>) -> Seq<usize> {
        unreachable!()
    }

    fn shape_line(
        &mut self,
        scratch: Option<String>,
        text: &str,
        attrs_list: &AttrsList,
        shaping: Shaping,
        tab_width: u16,
    ) -> String {
        self.shapes += 1;
        let mut out = match scratch {
            Some(mut s) => {
                self.reused_shapes += 1;
                s.clear();
                s
            }
            None => String::new(),
        };
        out.push_str(text);
        out.push_str(&format!("|{}|{:?}|{}", attrs_list.spans().len(), shaping, tab_width));
        out
    }

    fn layout_line(&mut self, shape: &String, align: Option<Align>, scratch: Vec<usize>) -> Vec<usize> {
        self.layouts += 1;
        let mut rows = scratch;
        if !rows.is_empty() {
            self.reused_layouts += 1;
        }
        rows.clear();
        let tag = match align {
            None => 0,
            Some(Align::Left) => 1,
            Some(Align::Right) => 2,
            Some(Align::Center) => 3,
            Some(Align::Justified) => 4,
            Some(Align::End) => 5,
        };
        for _ in 0..(shape.len() + 3) / 4 {
            rows.push(tag);
        }
        rows
    }
}

fn bold() -> Attrs {
    Attrs { weight: 700, ..Attrs::new() }
}

fn italic() -> Attrs {
    Attrs { style: Style::Italic, ..Attrs::new() }
}

fn plain(text: &str) -> BufferLine<String, usize> {
    BufferLine::new(text, LineEnding::Lf, AttrsList::new(&Attrs::new()), Shaping::Advanced)
}

fn computed(text: &str, engine: &mut TestEngine) -> BufferLine<String, usize> {
    let mut line = plain(text);
    line.layout(engine, 4);
    assert!(line.shape_opt().is_some());
    assert!(line.layout_opt().is_some());
    line
}

#[test]
fn new_line_has_inputs_and_nothing_cached() {
    let line = plain("abc");
    assert_eq!(line.text(), "abc");
    assert_eq!(line.ending(), LineEnding::Lf);
    assert_eq!(line.align(), None);
    assert_eq!(line.metadata(), None);
    assert!(line.shape_opt().is_none());
    assert!(line.layout_opt().is_none());
    assert_eq!(line.attrs_list().defaults(), Attrs::new());
}

#[test]
fn shape_is_computed_once() {
    let mut engine = TestEngine::default();
    let mut line = plain("abc");
    let first = line.shape(&mut engine, 4).clone();
    assert_eq!(first, "abc|0|Advanced|4");
    let second = line.shape(&mut engine, 4).clone();
    assert_eq!(first, second);
    assert_eq!(engine.shapes, 1);
    assert_eq!(line.shape_opt(), Some(&first));
}

#[test]
fn layout_is_computed_once_and_uses_alignment() {
    let mut engine = TestEngine::default();
    let mut line = plain("abc");
    line.set_align(Some(Align::Center));
    let rows = line.layout(&mut engine, 4).clone();
    assert_eq!(rows, vec![3, 3, 3, 3]);
    line.layout(&mut engine, 4);
    assert_eq!(engine.layouts, 1);
    assert_eq!(engine.shapes, 1);
}

#[test]
fn same_values_change_nothing() {
    let mut engine = TestEngine::default();
    let mut line = computed("abc", &mut engine);
    let shape = line.shape_opt().cloned();
    let layout = line.layout_opt().cloned();
    assert!(!line.set_text("abc", LineEnding::Lf, AttrsList::new(&Attrs::new())));
    assert!(!line.set_ending(LineEnding::Lf));
    assert!(!line.set_attrs_list(AttrsList::new(&Attrs::new())));
    assert!(!line.set_align(None));
    assert_eq!(line.shape_opt().cloned(), shape);
    assert_eq!(line.layout_opt().cloned(), layout);
}

#[test]
fn set_text_change_stales_both() {
    let mut engine = TestEngine::default();
    let mut line = computed("abc", &mut engine);
    assert!(line.set_text("abd", LineEnding::Lf, AttrsList::new(&Attrs::new())));
    assert_eq!(line.text(), "abd");
    assert!(line.shape_opt().is_none());
    assert!(line.layout_opt().is_none());
    assert_eq!(line.shape(&mut engine, 4), "abd|0|Advanced|4");
    assert_eq!(engine.reused_shapes, 1);
}

#[test]
fn set_text_ending_or_attrs_alone_counts_as_change() {
    let mut engine = TestEngine::default();
    let mut line = computed("abc", &mut engine);
    assert!(line.set_text("abc", LineEnding::CrLf, AttrsList::new(&Attrs::new())));
    assert_eq!(line.ending(), LineEnding::CrLf);
    assert!(line.shape_opt().is_none());
    line.layout(&mut engine, 4);
    let mut attrs = AttrsList::new(&Attrs::new());
    attrs.add_span(0, 1, &bold());
    assert!(line.set_text("abc", LineEnding::CrLf, attrs));
    assert!(line.layout_opt().is_none());
}

#[test]
fn set_ending_change_stales_both() {
    let mut engine = TestEngine::default();
    let mut line = computed("abc", &mut engine);
    assert!(line.set_ending(LineEnding::Absent));
    assert_eq!(line.ending(), LineEnding::Absent);
    assert!(line.shape_opt().is_none());
    assert!(line.layout_opt().is_none());
}

#[test]
fn set_attrs_change_stales_both() {
    let mut engine = TestEngine::default();
    let mut line = computed("abc", &mut engine);
    let mut attrs = AttrsList::new(&Attrs::new());
    attrs.add_span(1, 2, &italic());
    assert!(line.set_attrs_list(attrs.clone()));
    assert!(line.attrs_list() == &attrs);
    assert!(line.shape_opt().is_none());
    assert!(line.layout_opt().is_none());
    assert_eq!(line.shape(&mut engine, 4), "abc|1|Advanced|4");
}

#[test]
fn set_align_stales_layout_only() {
    let mut engine = TestEngine::default();
    let mut line = computed("abc", &mut engine);
    let shape = line.shape_opt().cloned();
    assert!(line.set_align(Some(Align::Right)));
    assert_eq!(line.align(), Some(Align::Right));
    assert_eq!(line.shape_opt().cloned(), shape);
    assert!(line.layout_opt().is_none());
    assert_eq!(line.layout(&mut engine, 4), &vec![2, 2, 2, 2]);
    assert_eq!(engine.shapes, 1);
    assert_eq!(engine.layouts, 2);
    assert_eq!(engine.reused_layouts, 1);
}

#[test]
fn metadata_survives_formatting_changes() {
    let mut line = plain("abc");
    line.set_metadata(7);
    assert_eq!(line.metadata(), Some(7));
    assert!(line.set_ending(LineEnding::Cr));
    assert_eq!(line.metadata(), Some(7));
    let mut attrs = AttrsList::new(&Attrs::new());
    attrs.add_span(0, 2, &bold());
    assert!(line.set_attrs_list(attrs));
    assert_eq!(line.metadata(), Some(7));
    assert!(line.set_align(Some(Align::Left)));
    assert_eq!(line.metadata(), Some(7));
    let attrs_now = line.attrs_list().clone();
    assert!(line.set_text("xyz", LineEnding::Cr, attrs_now));
    assert_eq!(line.metadata(), None);
}

#[test]
fn recomputed_shape_stales_layout() {
    let mut engine = TestEngine::default();
    let mut line = computed("abc", &mut engine);
    line.reset_shaping();
    assert!(line.shape_opt().is_none());
    line.shape(&mut engine, 8);
    assert_eq!(line.shape_opt().map(|s| s.as_str()), Some("abc|0|Advanced|8"));
    assert!(line.layout_opt().is_none());
    line.layout(&mut engine, 8);
    assert_eq!(engine.shapes, 2);
    assert_eq!(engine.layouts, 2);
}

#[test]
fn append_rebases_spans() {
    let mut a = BufferLine::<String, usize>::new("hel", LineEnding::Lf, AttrsList::new(&Attrs::new()), Shaping::Advanced);
    a.set_metadata(3);
    let other_defaults = Attrs { color_opt: Some(0xff0000ff), ..Attrs::new() };
    let mut b_attrs = AttrsList::new(&other_defaults);
    b_attrs.add_span(0, 1, &bold());
    let b = BufferLine::new("lo", LineEnding::CrLf, b_attrs, Shaping::Basic);
    a.append(b);
    assert_eq!(a.text(), "hello");
    assert_eq!(
        a.attrs_list().spans(),
        &vec![
            Span { start: 3, end: 5, attrs: other_defaults },
            Span { start: 3, end: 4, attrs: bold() },
        ]
    );
    assert_eq!(a.attrs_list().get_span(3), bold());
    assert_eq!(a.attrs_list().get_span(4), other_defaults);
    assert_eq!(a.attrs_list().get_span(1), Attrs::new());
    assert_eq!(a.ending(), LineEnding::Lf);
    assert_eq!(a.metadata(), None);
}

#[test]
fn append_keeps_receiver_spans_and_skips_equal_defaults() {
    let mut a_attrs = AttrsList::new(&Attrs::new());
    a_attrs.add_span(0, 2, &italic());
    let mut a = BufferLine::<String, usize>::new("ab", LineEnding::Lf, a_attrs, Shaping::Advanced);
    a.set_align(Some(Align::End));
    let mut b_attrs = AttrsList::new(&Attrs::new());
    b_attrs.add_span(1, 3, &bold());
    let mut b = BufferLine::new("cde", LineEnding::Lf, b_attrs, Shaping::Basic);
    b.set_align(Some(Align::Left));
    a.append(b);
    assert_eq!(a.text(), "abcde");
    assert_eq!(
        a.attrs_list().spans(),
        &vec![Span { start: 0, end: 2, attrs: italic() }, Span { start: 3, end: 5, attrs: bold() }]
    );
    assert_eq!(a.align(), Some(Align::End));
}

#[test]
fn append_stales_caches() {
    let mut engine = TestEngine::default();
    let mut line = computed("abc", &mut engine);
    line.append(plain("d"));
    assert!(line.shape_opt().is_none());
    assert!(line.layout_opt().is_none());
}

#[test]
fn split_off_divides_text_and_spans() {
    let mut attrs = AttrsList::new(&Attrs::new());
    attrs.add_span(2, 8, &bold());
    attrs.add_span(7, 9, &italic());
    let mut line = BufferLine::<String, usize>::new("hello world", LineEnding::CrLf, attrs, Shaping::Basic);
    line.set_align(Some(Align::Center));
    line.set_metadata(1);
    let tail = line.split_off(5);
    assert_eq!(line.text(), "hello");
    assert_eq!(tail.text(), " world");
    assert_eq!(line.attrs_list().spans(), &vec![Span { start: 2, end: 5, attrs: bold() }]);
    assert_eq!(
        tail.attrs_list().spans(),
        &vec![Span { start: 0, end: 3, attrs: bold() }, Span { start: 2, end: 4, attrs: italic() }]
    );
    assert_eq!(tail.ending(), LineEnding::CrLf);
    assert_eq!(tail.align(), Some(Align::Center));
    assert_eq!(tail.metadata(), None);
    assert_eq!(line.metadata(), None);
    assert!(tail.shape_opt().is_none());
}

#[test]
fn split_then_append_restores_text_and_coverage() {
    let mut attrs = AttrsList::new(&Attrs::new());
    attrs.add_span(2, 8, &bold());
    attrs.add_span(7, 9, &italic());
    let before = attrs.clone();
    let mut line = BufferLine::<String, usize>::new("hello world", LineEnding::Lf, attrs, Shaping::Advanced);
    let tail = line.split_off(5);
    line.append(tail);
    assert_eq!(line.text(), "hello world");
    for p in 0..12 {
        assert_eq!(line.attrs_list().get_span(p), before.get_span(p));
    }
    assert_eq!(line.attrs_list().spans().len(), 3);
}

#[test]
fn split_off_at_multibyte_boundary() {
    let mut line = plain("h\u{e9}llo");
    let tail = line.split_off(3);
    assert_eq!(line.text(), "h\u{e9}");
    assert_eq!(tail.text(), "llo");
}

#[test]
fn split_off_at_ends() {
    let mut line = plain("abc");
    let tail = line.split_off(3);
    assert_eq!(line.text(), "abc");
    assert_eq!(tail.text(), "");
    let tail = line.split_off(0);
    assert_eq!(line.text(), "");
    assert_eq!(tail.text(), "abc");
}

#[test]
fn reset_new_matches_fresh_line() {
    let mut engine = TestEngine::default();
    let mut line = computed("old text", &mut engine);
    line.set_metadata(9);
    line.set_align(Some(Align::Right));
    let mut attrs = AttrsList::new(&Attrs::new());
    attrs.add_span(0, 1, &bold());
    line.reset_new("new", LineEnding::Cr, attrs.clone(), Shaping::Basic);
    assert!(line.shape_opt().is_none());
    assert!(line.layout_opt().is_none());
    assert_eq!(line.metadata(), None);
    assert_eq!(line.align(), None);
    assert_eq!(line.text(), "new");

    let mut fresh_engine = TestEngine::default();
    let mut fresh = BufferLine::new("new", LineEnding::Cr, attrs, Shaping::Basic);
    assert_eq!(line.shape(&mut engine, 4), fresh.shape(&mut fresh_engine, 4));
    assert_eq!(line.layout(&mut engine, 4), fresh.layout(&mut fresh_engine, 4));
    assert_eq!(engine.reused_shapes, 1);
    assert_eq!(engine.reused_layouts, 1);
    assert_eq!(fresh_engine.reused_shapes, 0);
}

#[test]
fn reset_clears_metadata_and_caches() {
    let mut engine = TestEngine::default();
    let mut line = computed("abc", &mut engine);
    line.set_metadata(2);
    line.reset();
    assert_eq!(line.metadata(), None);
    assert!(line.shape_opt().is_none());
    assert!(line.layout_opt().is_none());
}

#[test]
fn reset_layout_keeps_shape() {
    let mut engine = TestEngine::default();
    let mut line = computed("abc", &mut engine);
    line.set_metadata(2);
    line.reset_layout();
    assert!(line.shape_opt().is_some());
    assert!(line.layout_opt().is_none());
    assert_eq!(line.metadata(), Some(2));
}

#[test]
fn into_text_returns_text() {
    assert_eq!(plain("xyz").into_text(), String::from("xyz"));
}

#[test]
fn empty_and_reclaim() {
    let mut line = BufferLine::<String, usize>::empty();
    assert_eq!(line.text(), "");
    assert_eq!(line.ending(), LineEnding::Lf);
    line.reset_new("abc", LineEnding::Lf, AttrsList::new(&bold()), Shaping::Basic);
    let text = line.reclaim_text();
    assert_eq!(text, "");
    assert_eq!(line.text(), "");
    let attrs = line.reclaim_attrs();
    assert_eq!(attrs.defaults(), bold());
    assert_eq!(line.attrs_list().defaults(), Attrs::new());
}

#[test]
fn attrs_list_basics() {
    let mut attrs = AttrsList::new(&Attrs::new());
    attrs.add_span(2, 2, &bold());
    assert!(attrs.spans().is_empty());
    attrs.add_span(0, 4, &bold());
    attrs.add_span(2, 6, &italic());
    assert_eq!(attrs.get_span(1), bold());
    assert_eq!(attrs.get_span(3), italic());
    assert_eq!(attrs.get_span(6), Attrs::new());
    let copy = attrs.clone();
    assert!(copy == attrs);
    let mut other = attrs.clone();
    other.clear_spans();
    assert!(other != attrs);
    assert!(other == AttrsList::new(&Attrs::new()));
}

#[test]
fn attrs_list_split_off() {
    let mut attrs = AttrsList::new(&Attrs::new());
    attrs.add_span(0, 2, &bold());
    attrs.add_span(1, 5, &italic());
    attrs.add_span(4, 6, &bold());
    let tail = attrs.split_off(3);
    assert_eq!(
        attrs.spans(),
        &vec![Span { start: 0, end: 2, attrs: bold() }, Span { start: 1, end: 3, attrs: italic() }]
    );
    assert_eq!(
        tail.spans(),
        &vec![Span { start: 0, end: 2, attrs: italic() }, Span { start: 1, end: 3, attrs: bold() }]
    );
    assert_eq!(tail.defaults(), Attrs::new());
}
