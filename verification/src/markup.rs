//! The pieces of the SVG document: the shared shapes under `<defs>` and the
//! `<use>` elements that stamp them. Lengths are in output units; a module of
//! radius `r` is `2 * r` units wide.

use crate::decimal::{decimal, push_decimal};
use crate::qr::QrKind;
use vstd::prelude::*;
use vstd::string::*;

verus! {

/// A `<rect>` with rounded corners.
pub open spec fn rounded_rect(at: nat, side: nat, rx: nat, fill: Seq<char>) -> Seq<char> {
    r#"<rect x=""#@ + decimal(at) + r#"" y=""#@ + decimal(at) + r#"" width=""#@ + decimal(side)
        + r#"" height=""#@ + decimal(side) + r#"" rx=""#@ + decimal(rx) + r#"" fill=""#@ + fill
        + r#""/>"#@
}

/// A `<rect>` with square corners.
pub open spec fn plain_rect(at: nat, side: nat, fill: Seq<char>) -> Seq<char> {
    r#"<rect x=""#@ + decimal(at) + r#"" y=""#@ + decimal(at) + r#"" width=""#@ + decimal(side)
        + r#"" height=""#@ + decimal(side) + r#"" fill=""#@ + fill + r#""/>"#@
}

/// The finder shape, seven modules wide: a rounded square in the foreground
/// colour, a hole of five modules in the background colour, and a rounded
/// square of three modules in the foreground colour at the centre.
pub open spec fn finder_group(radius: nat, fg_color: Seq<char>, bg_color: Seq<char>) -> Seq<char> {
    let diameter = radius * 2;
    r#"<g id="f">"#@ + rounded_rect(0, diameter * 7, radius, fg_color) + plain_rect(
        diameter,
        diameter * 5,
        bg_color,
    ) + rounded_rect(2 * diameter, diameter * 3, radius, fg_color) + r#"</g>"#@
}

fn push_rounded_rect(out: &mut String, at: usize, side: usize, rx: usize, fill: &str)
    ensures
        final(out)@ == old(out)@ + rounded_rect(at as nat, side as nat, rx as nat, fill@),
{
    let mut rect = String::from_str(r#"<rect x=""#);
    push_decimal(&mut rect, at);
    rect.append(r#"" y=""#);
    push_decimal(&mut rect, at);
    rect.append(r#"" width=""#);
    push_decimal(&mut rect, side);
    rect.append(r#"" height=""#);
    push_decimal(&mut rect, side);
    rect.append(r#"" rx=""#);
    push_decimal(&mut rect, rx);
    rect.append(r#"" fill=""#);
    rect.append(fill);
    rect.append(r#""/>"#);
    out.append(rect.as_str());
}

fn push_plain_rect(out: &mut String, at: usize, side: usize, fill: &str)
    ensures
        final(out)@ == old(out)@ + plain_rect(at as nat, side as nat, fill@),
{
    let mut rect = String::from_str(r#"<rect x=""#);
    push_decimal(&mut rect, at);
    rect.append(r#"" y=""#);
    push_decimal(&mut rect, at);
    rect.append(r#"" width=""#);
    push_decimal(&mut rect, side);
    rect.append(r#"" height=""#);
    push_decimal(&mut rect, side);
    rect.append(r#"" fill=""#);
    rect.append(fill);
    rect.append(r#""/>"#);
    out.append(rect.as_str());
}

pub fn draw_finder_pattern_group(radius: usize, fg_color: &str, bg_color: &str) -> (markup: String)
    requires
        14 * radius <= usize::MAX,
    ensures
        markup@ == finder_group(radius as nat, fg_color@, bg_color@),
{
    let diameter = radius * 2;
    let mut output = String::from_str(r#"<g id="f">"#);
    push_rounded_rect(&mut output, 0, diameter * 7, radius, fg_color);
    push_plain_rect(&mut output, 1 * diameter, diameter * 5, bg_color);
    push_rounded_rect(&mut output, 2 * diameter, diameter * 3, radius, fg_color);
    output.append(r#"</g>"#);
    output
}

/// The module shape: a circle of the given radius, or a square a tenth of a
/// unit wider than the module, so that neighbouring squares leave no gap.
pub open spec fn module_group(qr_kind: QrKind, radius: nat, fg_color: Seq<char>) -> Seq<char> {
    match qr_kind {
        QrKind::Circle => r#"<g id="m"><circle cx=""#@ + decimal(radius) + r#"" cy=""#@ + decimal(
            radius,
        ) + r#"" r=""#@ + decimal(radius) + r#"" fill=""#@ + fg_color + r#""/></g>"#@,
        QrKind::Square => r#"<g id="m"><rect x="0" y="0" width=""#@ + decimal(radius * 2)
            + r#".1" height=""#@ + decimal(radius * 2) + r#".1" fill=""#@ + fg_color
            + r#"" shape-rendering="crispEdges"/></g>"#@,
    }
}

/// The shared shapes: the finder shape for circles only, then the module
/// shape.
pub open spec fn defs(qr_kind: QrKind, radius: nat, fg_color: Seq<char>, bg_color: Seq<char>) -> Seq<
    char,
> {
    r#"<defs>"#@ + (if qr_kind == QrKind::Circle {
        finder_group(radius, fg_color, bg_color)
    } else {
        Seq::<char>::empty()
    }) + module_group(qr_kind, radius, fg_color) + r#"</defs>"#@
}

/// One stamp of the finder shape with its top left corner at (`x`, `y`).
pub open spec fn finder_use(x: nat, y: nat) -> Seq<char> {
    r##"<use href="#f" x=""##@ + decimal(x) + r#"" y=""#@ + decimal(y) + r#""/>"#@
}

/// The three stamps of the finder shape: top left, top right, bottom left.
pub open spec fn finder_uses(code_width: nat, radius: nat, padding: nat) -> Seq<char> {
    let far = ((code_width - 7) * radius * 2 + padding) as nat;
    finder_use(padding, padding) + finder_use(far, padding) + finder_use(padding, far)
}

/// One stamp of the module shape for the module in column `col` of row
/// `row`.
pub open spec fn module_use(col: nat, row: nat, radius: nat, padding: nat) -> Seq<char> {
    r##"<use href="#m" x=""##@ + decimal(col * radius * 2 + padding) + r#"" y=""#@ + decimal(
        row * radius * 2 + padding,
    ) + r#""/>"#@
}

pub fn draw_module_group(qr_kind: &QrKind, radius: usize, fg_color: &str) -> (markup: String)
    requires
        2 * radius <= usize::MAX,
    ensures
        markup@ == module_group(*qr_kind, radius as nat, fg_color@),
{
    match qr_kind {
        QrKind::Circle => {
            let mut output = String::from_str(r#"<g id="m"><circle cx=""#);
            push_decimal(&mut output, radius);
            output.append(r#"" cy=""#);
            push_decimal(&mut output, radius);
            output.append(r#"" r=""#);
            push_decimal(&mut output, radius);
            output.append(r#"" fill=""#);
            output.append(fg_color);
            output.append(r#""/></g>"#);
            output
        },
        QrKind::Square => {
            let mut output = String::from_str(r#"<g id="m"><rect x="0" y="0" width=""#);
            push_decimal(&mut output, radius * 2);
            output.append(r#".1" height=""#);
            push_decimal(&mut output, radius * 2);
            output.append(r#".1" fill=""#);
            output.append(fg_color);
            output.append(r#"" shape-rendering="crispEdges"/></g>"#);
            output
        },
    }
}

pub fn render_defs(qr_kind: &QrKind, radius: usize, fg_color: &str, bg_color: &str) -> (markup:
    String)
    requires
        2 * radius <= usize::MAX,
        *qr_kind == QrKind::Circle ==> 14 * radius <= usize::MAX,
    ensures
        markup@ == defs(*qr_kind, radius as nat, fg_color@, bg_color@),
{
    let mut output = String::from_str(r#"<defs>"#);
    if *qr_kind == QrKind::Circle {
        output.append(draw_finder_pattern_group(radius, fg_color, bg_color).as_str());
    } else {
        assert(output@ + Seq::<char>::empty() =~= output@);
    }
    output.append(draw_module_group(qr_kind, radius, fg_color).as_str());
    output.append(r#"</defs>"#);
    output
}

fn push_finder_use(out: &mut String, x: usize, y: usize)
    ensures
        final(out)@ == old(out)@ + finder_use(x as nat, y as nat),
{
    let mut stamp = String::from_str(r##"<use href="#f" x=""##);
    push_decimal(&mut stamp, x);
    stamp.append(r#"" y=""#);
    push_decimal(&mut stamp, y);
    stamp.append(r#""/>"#);
    out.append(stamp.as_str());
}

pub fn draw_finder_patterns(code_width: usize, radius: usize, padding: usize) -> (markup: String)
    requires
        code_width >= 7,
        (code_width - 7) * radius * 2 + padding <= usize::MAX,
    ensures
        markup@ == finder_uses(code_width as nat, radius as nat, padding as nat),
{
    assert((code_width - 7) * radius >= 0) by (nonlinear_arith)
        requires
            code_width >= 7,
    ;
    let far = ((code_width - 7) * radius * 2) + padding;
    let mut output = String::new();
    push_finder_use(&mut output, padding, padding);
    push_finder_use(&mut output, far, padding);
    push_finder_use(&mut output, padding, far);
    assert(Seq::<char>::empty() + finder_use(padding as nat, padding as nat) =~= finder_use(
        padding as nat,
        padding as nat,
    ));
    output
}

pub fn draw_module(col: usize, row: usize, radius: usize, padding: usize) -> (markup: String)
    requires
        col * radius * 2 + padding <= usize::MAX,
        row * radius * 2 + padding <= usize::MAX,
    ensures
        markup@ == module_use(col as nat, row as nat, radius as nat, padding as nat),
{
    assert(col * radius >= 0 && row * radius >= 0) by (nonlinear_arith);
    let mut output = String::from_str(r##"<use href="#m" x=""##);
    push_decimal(&mut output, (col * radius * 2) + padding);
    output.append(r#"" y=""#);
    push_decimal(&mut output, (row * radius * 2) + padding);
    output.append(r#""/>"#);
    output
}

} // verus!
