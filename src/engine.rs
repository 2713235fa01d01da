use vstd::prelude::*;
use crate::attrs::{AttrsList, Span};
use crate::style::{Align, Attrs, Shaping};

verus! {

/// The shaping and layout engines a line calls to compute its derived artifacts.
///
/// `S` is the shape artifact and `R` a laid-out row. Layout parameters such as
/// font size, width bound, wrap policy and monospace width are the engine's own;
/// a line hands it only what the line owns. Both methods may be given the
/// storage of a stale artifact to fill in place of a fresh one.
///
/// Both engines are deterministic: a result depends on the line's values
/// alone, never on the scratch storage handed in nor on earlier calls. The
/// spec functions name those results; an implementation proves that its
/// methods return them.
pub trait LineEngine<S, R> {
    /// The shape of `text` under `attrs`, `shaping` and `tab_width`.
    spec fn shaped(text: Seq<char>, attrs: (Attrs, Seq<Span>), shaping: Shaping, tab_width: u16) -> S;

    /// The rows of `shape` laid out with `align`.
    spec fn laid_out(shape: S, align: Option<Align>) -> Seq<R>;

    /// Shapes `text` under `attrs_list` and `shaping`.
    fn shape_line(
        &mut self,
        scratch: Option<S>,
        text: &str,
        attrs_list: &AttrsList,
        shaping: Shaping,
        tab_width: u16,
    ) -> (r: S)
        ensures
            r == Self::shaped(text@, attrs_list@, shaping, tab_width),
    ;

    /// Lays out a shaped line into rows.
    fn layout_line(&mut self, shape: &S, align: Option<Align>, scratch: Vec<R>) -> (r: Vec<R>)
        ensures
            r@ == Self::laid_out(*shape, align),
    ;
}

} // verus!
