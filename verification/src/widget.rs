//! The progress widget: one spinner line showing the aggregate position,
//! length and the active category's label.
//!
//! The drawing itself is done by the `indicatif` crate; this module keeps a
//! plain model of what the widget was last told — position, length, label
//! and whether it has been cleared — so the completion contract of a remote
//! operation can state that the widget never survives the operation.

use vstd::prelude::*;

use crate::progress::Category;

verus! {

#[verifier::external_type_specification]
#[verifier::external_body]
pub struct ExProgressBar(indicatif::ProgressBar);

#[verifier::external_type_specification]
#[verifier::external_body]
pub struct ExProgressStyle(indicatif::ProgressStyle);

/// Relies on indicatif::ProgressStyle::with_template: parses the spinner
/// template showing a spinner, a (position/length) fraction and a label;
/// a rejected template yields nothing.
#[verifier::external_body]
fn spinner_style() -> Option<indicatif::ProgressStyle> {
    match indicatif::ProgressStyle::with_template("{spinner} ({pos}/{len}) {msg}") {
        Ok(style) => Some(style),
        Err(_) => None,
    }
}

/// Relies on indicatif::ProgressBar::new_spinner: a fresh spinner widget.
#[verifier::external_body]
fn new_spinner() -> indicatif::ProgressBar {
    indicatif::ProgressBar::new_spinner()
}

/// Relies on indicatif::ProgressBar::with_style: the same widget drawing
/// with the given style.
#[verifier::external_body]
fn bar_with_style(
    bar: indicatif::ProgressBar,
    style: indicatif::ProgressStyle,
) -> indicatif::ProgressBar {
    bar.with_style(style)
}

/// Relies on indicatif::ProgressBar::set_length: sets the widget's length.
#[verifier::external_body]
fn bar_set_length(bar: &indicatif::ProgressBar, len: u64) {
    bar.set_length(len);
}

/// Relies on indicatif::ProgressBar::set_position: sets the widget's
/// position.
#[verifier::external_body]
fn bar_set_position(bar: &indicatif::ProgressBar, pos: u64) {
    bar.set_position(pos);
}

/// Relies on indicatif::ProgressBar::set_message: sets the widget's label.
#[verifier::external_body]
fn bar_set_message(bar: &indicatif::ProgressBar, msg: &str) {
    bar.set_message(msg.to_string());
}

/// Relies on indicatif::ProgressBar::tick: forces a redraw.
#[verifier::external_body]
fn bar_tick(bar: &indicatif::ProgressBar) {
    bar.tick();
}

/// Relies on indicatif::ProgressBar::finish_and_clear: erases the widget's
/// line from the terminal.
#[verifier::external_body]
fn bar_finish_and_clear(bar: &indicatif::ProgressBar) {
    bar.finish_and_clear();
}

/// The display name a category's label shows.
pub open spec fn spec_category_label(c: Category) -> Seq<char> {
    match c {
        Category::Count => "Counting"@,
        Category::Compress => "Compressing"@,
        Category::Pack => "Packing"@,
        Category::Push => "Pushing"@,
    }
}

/// The display name of a category.
pub fn category_label(c: Category) -> (r: &'static str)
    ensures
        r@ == spec_category_label(c),
{
    match c {
        Category::Count => "Counting",
        Category::Compress => "Compressing",
        Category::Pack => "Packing",
        Category::Push => "Pushing",
    }
}

/// A spinner line on the terminal, with the plain model of what it was
/// last told.
pub struct Widget {
    /// The underlying terminal widget.
    pub bar: indicatif::ProgressBar,
    /// The position last shown.
    pub pos: u64,
    /// The length last shown.
    pub len: u64,
    /// The label last shown, once any category reported.
    pub label: Option<Category>,
    /// Whether the line has been erased; a cleared widget is never drawn
    /// again.
    pub cleared: bool,
}

impl Widget {
    /// A fresh widget showing nothing yet.
    pub fn new() -> (w: Widget)
        ensures
            w.pos == 0,
            w.len == 0,
            w.label is None,
            !w.cleared,
    {
        let bar = new_spinner();
        let bar = match spinner_style() {
            Option::Some(style) => bar_with_style(bar, style),
            Option::None => bar,
        };
        Widget { bar, pos: 0, len: 0, label: Option::None, cleared: false }
    }

    /// Shows the given sample: sets the label, length and position, and
    /// forces a redraw.
    pub fn update(&mut self, pos: u64, len: u64, label: Category)
        ensures
            final(self).pos == pos,
            final(self).len == len,
            final(self).label == Some(label),
            final(self).cleared == old(self).cleared,
    {
        bar_set_message(&self.bar, category_label(label));
        bar_set_length(&self.bar, len);
        bar_set_position(&self.bar, pos);
        bar_tick(&self.bar);
        self.pos = pos;
        self.len = len;
        self.label = Option::Some(label);
    }

    /// Erases the widget's line; no residual text stays on screen.
    pub fn clear(&mut self)
        ensures
            final(self).cleared,
            final(self).pos == old(self).pos,
            final(self).len == old(self).len,
            final(self).label == old(self).label,
    {
        bar_finish_and_clear(&self.bar);
        self.cleared = true;
    }
}

} // verus!
