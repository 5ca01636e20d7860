//! Drawing a symbol: the document and the geometry reported with it.

use crate::decimal::{decimal, push_decimal};
use crate::encoder::outcome;
use crate::geometry::{
    cutout_first, cutout_last, cutout_side, find_safe_center_cutout, is_finder_pattern, is_within,
    lemma_cutout_in_grid, safe_cutout_side,
};
use crate::markup::{defs, draw_finder_patterns, draw_module, finder_uses, module_use, render_defs};
use crate::stamps::{
    cell_at, is_stamped, lemma_cell_in_grid, lemma_cutout_removes_box, outside_box, stamps, Cell,
};
use crate::symbol::{EncodeError, Symbol, SymbolView};
use vstd::prelude::*;
use vstd::string::*;

verus! {

/// The shape drawn for a dark module.
#[derive(Clone, Copy, Debug, PartialEq, Eq, Structural)]
pub enum QrKind {
    /// A square; the finder patterns are drawn module by module.
    Square,
    /// A circle; each finder pattern is drawn as one rounded shape.
    Circle,
}

/// A drawn symbol.
#[derive(Debug)]
pub struct Qr {
    /// The SVG document.
    pub svg: String,
    /// Version of the symbol, 1..=40.
    pub version: i16,
    /// Width of one module in output units.
    pub module_size: usize,
    /// Padding on each side in output units.
    pub padding: usize,
    /// Width of the symbol in modules.
    pub width: usize,
    /// First column of the cutout, where one was asked for.
    pub center_top_left_x: Option<usize>,
    /// First row of the cutout, where one was asked for.
    pub center_top_left_y: Option<usize>,
    /// Side of the cutout box in modules, where one was asked for.
    pub center_width: Option<usize>,
}

/// Radius of a module in output units.
pub const RADIUS: usize = 1;

/// One stamp of the module shape for each of `cells`, in their order.
pub open spec fn module_uses(cells: Seq<Cell>, radius: nat, padding: nat) -> Seq<char>
    decreases cells.len(),
{
    if cells.len() == 0 {
        Seq::empty()
    } else {
        module_uses(cells.drop_last(), radius, padding) + module_use(
            cells.last().col as nat,
            cells.last().row as nat,
            radius,
            padding,
        )
    }
}

/// Side of the drawing in output units: the modules, and the padding on
/// both sides.
pub open spec fn canvas_size(width: nat, padding: nat) -> nat {
    2 * RADIUS as nat * width + 2 * (padding * 2 * RADIUS as nat)
}

/// The XML declaration that may precede the root element.
pub open spec fn xml_prologue() -> Seq<char> {
    r#"<?xml version="1.0" standalone="yes"?>"#@
}

/// The opening tag of the root element, with a view box of `size` by `size`.
pub open spec fn svg_open(size: nat) -> Seq<char> {
    r#"<svg xmlns="http://www.w3.org/2000/svg" version="1.1" viewBox="0 0 "#@ + decimal(size)
        + " "@ + decimal(size) + r#"">"#@
}

/// The rectangle that fills the drawing with the background colour.
pub open spec fn background(size: nat, bg_color: Seq<char>) -> Seq<char> {
    r#"<rect x="0" y="0" width=""#@ + decimal(size) + r#"" height=""#@ + decimal(size)
        + r#"" fill=""#@ + bg_color + r#""/>"#@
}

/// The start of the document: the XML declaration where asked for, and the
/// opening tag of the root element.
pub open spec fn opening(size: nat, xml_declaration: bool) -> Seq<char> {
    if xml_declaration {
        xml_prologue() + svg_open(size)
    } else {
        svg_open(size)
    }
}

/// All that precedes the stamps of the modules.
pub open spec fn document_head(
    s: SymbolView,
    qr_kind: QrKind,
    fg_color: Seq<char>,
    bg_color: Seq<char>,
    padding: nat,
    xml_declaration: bool,
) -> Seq<char> {
    let size = canvas_size(s.width, padding);
    let shapes = opening(size, xml_declaration) + defs(qr_kind, RADIUS as nat, fg_color, bg_color)
        + background(size, bg_color);
    if qr_kind == QrKind::Circle {
        shapes + finder_uses(s.width, RADIUS as nat, padding * 2 * RADIUS as nat)
    } else {
        shapes
    }
}

/// The document: the prologue where asked for, the root element, the shared
/// shapes, the background, the three finder shapes for circles, one stamp
/// for each stamped module, and the end of the root element.
pub open spec fn document(
    s: SymbolView,
    qr_kind: QrKind,
    fg_color: Seq<char>,
    bg_color: Seq<char>,
    padding: nat,
    remove_middle: bool,
    xml_declaration: bool,
) -> Seq<char> {
    document_head(s, qr_kind, fg_color, bg_color, padding, xml_declaration) + module_uses(
        stamps(s, qr_kind, remove_middle, s.dark.len()),
        RADIUS as nat,
        padding * 2 * RADIUS as nat,
    ) + "</svg>"@
}

/// Whether `qr` is the drawing of `s` with the given options.
pub open spec fn is_drawing(
    qr: Qr,
    s: SymbolView,
    qr_kind: QrKind,
    fg_color: Seq<char>,
    bg_color: Seq<char>,
    padding: nat,
    remove_middle: bool,
    xml_declaration: bool,
) -> bool {
    &&& qr.svg@ == document(
        s,
        qr_kind,
        fg_color,
        bg_color,
        padding,
        remove_middle,
        xml_declaration,
    )
    &&& qr.version == s.version
    &&& qr.module_size == 2 * RADIUS
    &&& qr.padding == padding * 2 * RADIUS
    &&& qr.width == s.width
    &&& if remove_middle {
        &&& qr.center_top_left_x == Some(cutout_first(s.width, s.level) as usize)
        &&& qr.center_top_left_y == Some(cutout_first(s.width, s.level) as usize)
        &&& qr.center_width == Some(
            (cutout_last(s.width, s.level) - cutout_first(s.width, s.level) + 1) as usize,
        )
    } else {
        &&& qr.center_top_left_x is None
        &&& qr.center_top_left_y is None
        &&& qr.center_width is None
    }
}

fn draw_svg_open(size: usize) -> (markup: String)
    ensures
        markup@ == svg_open(size as nat),
{
    let mut output = String::from_str(
        r#"<svg xmlns="http://www.w3.org/2000/svg" version="1.1" viewBox="0 0 "#,
    );
    push_decimal(&mut output, size);
    output.append(" ");
    push_decimal(&mut output, size);
    output.append(r#"">"#);
    output
}

fn draw_opening(size: usize, xml_declaration: bool) -> (markup: String)
    ensures
        markup@ == opening(size as nat, xml_declaration),
{
    if xml_declaration {
        let mut output = String::from_str(r#"<?xml version="1.0" standalone="yes"?>"#);
        output.append(draw_svg_open(size).as_str());
        output
    } else {
        draw_svg_open(size)
    }
}

fn draw_background(size: usize, bg_color: &str) -> (markup: String)
    ensures
        markup@ == background(size as nat, bg_color@),
{
    let mut output = String::from_str(r#"<rect x="0" y="0" width=""#);
    push_decimal(&mut output, size);
    output.append(r#"" height=""#);
    push_decimal(&mut output, size);
    output.append(r#"" fill=""#);
    output.append(bg_color);
    output.append(r#""/>"#);
    output
}

/// Draws `code`.
pub fn draw_symbol(
    code: &Symbol,
    qr_kind: QrKind,
    fg_color: &str,
    bg_color: &str,
    padding: usize,
    remove_middle: bool,
    xml_declaration: bool,
) -> (qr: Qr)
    requires
        code.wf(),
        2 * code.width + 4 * padding <= usize::MAX,
        qr_kind == QrKind::Circle ==> code.width >= 7,
    ensures
        is_drawing(
            qr,
            code@,
            qr_kind,
            fg_color@,
            bg_color@,
            padding as nat,
            remove_middle,
            xml_declaration,
        ),
{
    let radius = RADIUS;
    let diameter = radius * 2;
    let code_width = code.width;

    // padding and width in output units
    let svg_padding = diameter * padding;
    let svg_width = code_width * diameter;
    let size = svg_width + 2 * svg_padding;

    let mut output = draw_opening(size, xml_declaration);
    output.append(render_defs(&qr_kind, radius, fg_color, bg_color).as_str());
    output.append(draw_background(size, bg_color).as_str());

    // finder shapes for circles
    if qr_kind == QrKind::Circle {
        output.append(draw_finder_patterns(code_width, radius, svg_padding).as_str());
    }
    let ghost head = document_head(
        code@,
        qr_kind,
        fg_color@,
        bg_color@,
        padding as nat,
        xml_declaration,
    );
    assert(output@ == head);
    assert(output@ =~= head + module_uses(
        stamps(code@, qr_kind, remove_middle, 0),
        RADIUS as nat,
        svg_padding as nat,
    ));

    let max_cutout_square = find_safe_center_cutout(code);
    let cutout_hides = remove_middle && safe_cutout_side(code_width, code.level) > 0;

    // the modules
    let count = code.dark.len();
    let mut idx: usize = 0;
    while idx < count
        invariant
            idx <= count,
            count == code.dark.len(),
            code.wf(),
            code_width == code.width,
            radius == RADIUS,
            svg_padding == 2 * padding,
            2 * code.width + 4 * padding <= usize::MAX,
            cutout_hides == (remove_middle && cutout_side(code@.width, code.level) > 0),
            max_cutout_square.x1 == cutout_first(code@.width, code.level),
            max_cutout_square.y1 == cutout_first(code@.width, code.level),
            max_cutout_square.x2 == cutout_last(code@.width, code.level),
            max_cutout_square.y2 == cutout_last(code@.width, code.level),
            output@ == head + module_uses(
                stamps(code@, qr_kind, remove_middle, idx as nat),
                RADIUS as nat,
                svg_padding as nat,
            ),
        decreases count - idx,
    {
        proof {
            lemma_cell_in_grid(code@, idx as int);
        }
        let col = idx % code_width;
        let row = idx / code_width;
        let ghost before = stamps(code@, qr_kind, remove_middle, idx as nat);
        if code.dark[idx] && !(qr_kind == QrKind::Circle && is_finder_pattern(code_width, col, row))
            && !(cutout_hides && is_within(col, row, &max_cutout_square)) {
            output.append(draw_module(col, row, radius, svg_padding).as_str());
            proof {
                let cell = cell_at(code@, idx as int);
                assert(is_stamped(code@, qr_kind, remove_middle, idx as int));
                assert(before.push(cell).drop_last() =~= before);
                assert(output@ =~= head + module_uses(
                    before.push(cell),
                    RADIUS as nat,
                    svg_padding as nat,
                ));
            }
        } else {
            assert(!is_stamped(code@, qr_kind, remove_middle, idx as int));
        }
        idx += 1;
    }
    output.append("</svg>");

    proof {
        lemma_cutout_in_grid(code@.width, code.level);
    }
    if remove_middle {
        Qr {
            svg: output,
            version: code.version,
            padding: svg_padding,
            module_size: diameter,
            width: code_width,
            center_top_left_x: Some(max_cutout_square.x1),
            center_top_left_y: Some(max_cutout_square.y1),
            center_width: Some((max_cutout_square.x2 - max_cutout_square.x1) + 1),
        }
    } else {
        Qr {
            svg: output,
            version: code.version,
            padding: svg_padding,
            module_size: diameter,
            width: code_width,
            center_top_left_x: None,
            center_top_left_y: None,
            center_width: None,
        }
    }
}

/// Whether two drawings agree in the document, character for character,
/// and in all that is reported with it.
pub open spec fn same_drawing(a: Qr, b: Qr) -> bool {
    &&& a.svg@ == b.svg@
    &&& a.version == b.version
    &&& a.module_size == b.module_size
    &&& a.padding == b.padding
    &&& a.width == b.width
    &&& a.center_top_left_x == b.center_top_left_x
    &&& a.center_top_left_y == b.center_top_left_y
    &&& a.center_width == b.center_width
}

/// Whether `r` is what [`draw_qr`] owes for the outcome `encoded` of an
/// encoding: the drawing of the symbol, or the error that the encoding ended
/// in.
pub open spec fn is_draw_result(
    r: Result<Qr, EncodeError>,
    encoded: Result<SymbolView, EncodeError>,
    qr_kind: QrKind,
    fg_color: Seq<char>,
    bg_color: Seq<char>,
    padding: nat,
    remove_middle: bool,
    xml_declaration: bool,
) -> bool {
    match encoded {
        Ok(s) => r matches Ok(qr) && is_drawing(
            qr,
            s,
            qr_kind,
            fg_color,
            bg_color,
            padding,
            remove_middle,
            xml_declaration,
        ),
        Err(e) => r == Err::<Qr, EncodeError>(e),
    }
}

/// A symbol and a set of options have one drawing.
pub proof fn lemma_drawing_is_determined(
    a: Qr,
    b: Qr,
    s: SymbolView,
    qr_kind: QrKind,
    fg_color: Seq<char>,
    bg_color: Seq<char>,
    padding: nat,
    remove_middle: bool,
    xml_declaration: bool,
)
    requires
        is_drawing(a, s, qr_kind, fg_color, bg_color, padding, remove_middle, xml_declaration),
        is_drawing(b, s, qr_kind, fg_color, bg_color, padding, remove_middle, xml_declaration),
    ensures
        same_drawing(a, b),
{
}

/// Two calls of [`draw_qr`] with the same arguments end alike: in the same
/// error, or in drawings that agree character for character.
pub proof fn lemma_draw_qr_is_determined(
    first: Result<Qr, EncodeError>,
    second: Result<Qr, EncodeError>,
    encoded: Result<SymbolView, EncodeError>,
    qr_kind: QrKind,
    fg_color: Seq<char>,
    bg_color: Seq<char>,
    padding: nat,
    remove_middle: bool,
    xml_declaration: bool,
)
    requires
        is_draw_result(
            first,
            encoded,
            qr_kind,
            fg_color,
            bg_color,
            padding,
            remove_middle,
            xml_declaration,
        ),
        is_draw_result(
            second,
            encoded,
            qr_kind,
            fg_color,
            bg_color,
            padding,
            remove_middle,
            xml_declaration,
        ),
    ensures
        match first {
            Ok(a) => second matches Ok(b) && same_drawing(a, b),
            Err(e) => second == Err::<Qr, EncodeError>(e),
        },
{
}

/// Whether `cut` is `plain` less the stamps in the box that `cut` reports:
/// the two documents begin alike, with the same shapes, background and
/// finder stamps, `plain` goes on with all the stamps of `s`, and `cut` with
/// those of them that lie outside the box, in the same order; version, width,
/// module size and padding are the same.
pub open spec fn is_cutout_of(
    cut: Qr,
    plain: Qr,
    s: SymbolView,
    qr_kind: QrKind,
    fg_color: Seq<char>,
    bg_color: Seq<char>,
    padding: nat,
    xml_declaration: bool,
) -> bool {
    let all = stamps(s, qr_kind, false, s.dark.len());
    let head = document_head(s, qr_kind, fg_color, bg_color, padding, xml_declaration);
    let pad = padding * 2 * RADIUS as nat;
    &&& cut.center_top_left_x matches Some(x)
    &&& cut.center_top_left_y matches Some(y)
    &&& cut.center_width matches Some(side)
    &&& plain.svg@ == head + module_uses(all, RADIUS as nat, pad) + "</svg>"@
    &&& cut.svg@ == head + module_uses(
        all.filter(outside_box(x as int, y as int, side as int)),
        RADIUS as nat,
        pad,
    ) + "</svg>"@
    &&& cut.version == plain.version
    &&& cut.width == plain.width
    &&& cut.module_size == plain.module_size
    &&& cut.padding == plain.padding
}

/// Where the side of the cutout does not round down to nothing, the drawing
/// with the cutout is the drawing without it, less the stamps in the
/// reported box.
pub proof fn lemma_cutout_drawing(
    plain: Qr,
    cut: Qr,
    s: SymbolView,
    qr_kind: QrKind,
    fg_color: Seq<char>,
    bg_color: Seq<char>,
    padding: nat,
    xml_declaration: bool,
)
    requires
        is_drawing(plain, s, qr_kind, fg_color, bg_color, padding, false, xml_declaration),
        is_drawing(cut, s, qr_kind, fg_color, bg_color, padding, true, xml_declaration),
        cutout_side(s.width, s.level) > 0,
        s.width <= usize::MAX,
    ensures
        is_cutout_of(cut, plain, s, qr_kind, fg_color, bg_color, padding, xml_declaration),
{
    lemma_cutout_removes_box(s, qr_kind, s.dark.len());
    lemma_cutout_in_grid(s.width, s.level);
}

/// Where the side of the cutout rounds down to nothing, the cutout changes
/// nothing in the document.
pub proof fn lemma_empty_cutout_drawing(
    plain: Qr,
    cut: Qr,
    s: SymbolView,
    qr_kind: QrKind,
    fg_color: Seq<char>,
    bg_color: Seq<char>,
    padding: nat,
    xml_declaration: bool,
)
    requires
        is_drawing(plain, s, qr_kind, fg_color, bg_color, padding, false, xml_declaration),
        is_drawing(cut, s, qr_kind, fg_color, bg_color, padding, true, xml_declaration),
        cutout_side(s.width, s.level) == 0,
    ensures
        cut.svg@ == plain.svg@,
{
    lemma_cutout_removes_box(s, qr_kind, s.dark.len());
}

/// Two calls of [`draw_qr`] on a regular symbol that differ in the cutout
/// alone end in two drawings of which the one with the cutout is the other
/// less the stamps in the reported box; on an error they end in that error.
pub proof fn lemma_draw_qr_cutout(
    plain: Result<Qr, EncodeError>,
    cut: Result<Qr, EncodeError>,
    encoded: Result<SymbolView, EncodeError>,
    qr_kind: QrKind,
    fg_color: Seq<char>,
    bg_color: Seq<char>,
    padding: nat,
    xml_declaration: bool,
)
    requires
        is_draw_result(plain, encoded, qr_kind, fg_color, bg_color, padding, false, xml_declaration),
        is_draw_result(cut, encoded, qr_kind, fg_color, bg_color, padding, true, xml_declaration),
        encoded matches Ok(s) ==> s.is_regular(),
    ensures
        match encoded {
            Ok(s) => plain matches Ok(a) && cut matches Ok(b) && is_cutout_of(
                b,
                a,
                s,
                qr_kind,
                fg_color,
                bg_color,
                padding,
                xml_declaration,
            ),
            Err(e) => plain == Err::<Qr, EncodeError>(e) && cut == Err::<Qr, EncodeError>(e),
        },
{
    match encoded {
        Ok(s) => {
            assert(cutout_side(s.width, s.level) > 0);
            lemma_cutout_drawing(
                plain->Ok_0,
                cut->Ok_0,
                s,
                qr_kind,
                fg_color,
                bg_color,
                padding,
                xml_declaration,
            );
        },
        Err(_) => {},
    }
}

/// Draws the symbol that an encoding ended in, or hands on the error that it
/// ended in.
pub fn draw_qr(
    code: Result<Symbol, EncodeError>,
    qr_kind: QrKind,
    fg_color: &str,
    bg_color: &str,
    padding: &usize,
    remove_middle: bool,
    xml_declaration: bool,
) -> (r: Result<Qr, EncodeError>)
    requires
        code matches Ok(s) ==> {
            &&& s.wf()
            &&& 2 * s.width + 4 * *padding <= usize::MAX
            &&& qr_kind == QrKind::Circle ==> s.width >= 7
        },
    ensures
        is_draw_result(
            r,
            outcome(code),
            qr_kind,
            fg_color@,
            bg_color@,
            *padding as nat,
            remove_middle,
            xml_declaration,
        ),
{
    match code {
        Ok(symbol) => Ok(
            draw_symbol(
                &symbol,
                qr_kind,
                fg_color,
                bg_color,
                *padding,
                remove_middle,
                xml_declaration,
            ),
        ),
        Err(e) => Err(e),
    }
}

} // verus!
