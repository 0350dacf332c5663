use vstd::prelude::*;

use crate::fuel::{fuel_percent_from_codes, fuel_percent_of_codes};
use crate::ratio::round_half_up;
use crate::text::{
    decimal, hundredths, push_decimal, push_hundredths, push_signed_decimal, signed_decimal,
};
use crate::volts::{
    battery_centivolts, battery_volts_den, battery_volts_num, code_to_centivolts, code_volts_den,
    code_volts_num,
};

verus! {

/// Left end of the gauge bar, in pixels.
pub const BAR_LEFT: i32 = 15;

/// Width of the gauge bar, in pixels.
pub const BAR_WIDTH: i32 = 98;

/// Top edge of the gauge bar.
pub const BAR_TOP: i32 = 5;

/// Height of the gauge bar.
pub const BAR_HEIGHT: i32 = 6;

/// How far a reference tick reaches above and below the bar, together.
pub const TICK_HEIGHT: i32 = 8;

/// Gap between the bar's lower edge and the pointer.
pub const POINTER_GAP: i32 = 4;

/// Length of the pointer.
pub const POINTER_LEN: i32 = 12;

/// Stroke width of the pointer.
pub const POINTER_STROKE: u32 = 4;

/// Baseline row of the two end labels.
pub const LABEL_Y: i32 = 2;

/// Column of the right end label.
pub const RIGHT_LABEL_X: i32 = 118;

/// Column of the two readout lines.
pub const READOUT_X: i32 = 44;

/// Row of the primary readout.
pub const PRIMARY_Y: i32 = 30;

/// Row of the secondary (voltage) readout.
pub const SECONDARY_Y: i32 = 45;

/// Lower end of the temperature band shown, in hundredths of a degree Fahrenheit.
pub const MIN_CENTI_F: i32 = 12_000;

/// Upper end of the temperature band shown, in hundredths of a degree Fahrenheit.
pub const MAX_CENTI_F: i32 = 27_000;

/// One drawing primitive on a monochrome panel. Text is top-aligned,
/// drawn lit, in the panel's single font.
#[derive(Clone, Debug, PartialEq, Eq)]
pub enum DrawOp {
    /// A lit, filled rectangle.
    FillRect { x: i32, y: i32, width: u32, height: u32 },
    /// A straight line, lit or dark, of the given stroke width.
    Line { x0: i32, y0: i32, x1: i32, y1: i32, on: bool, stroke: u32 },
    /// ASCII text with its top-left corner at `(x, y)`.
    Text { x: i32, y: i32, text: Vec<u8> },
}

/// What a `DrawOp` draws.
pub enum Shape {
    FillRect { x: int, y: int, width: int, height: int },
    Line { x0: int, y0: int, x1: int, y1: int, on: bool, stroke: int },
    Text { x: int, y: int, text: Seq<u8> },
}

impl View for DrawOp {
    type V = Shape;

    open spec fn view(&self) -> Shape {
        match self {
            DrawOp::FillRect { x, y, width, height } => Shape::FillRect {
                x: *x as int,
                y: *y as int,
                width: *width as int,
                height: *height as int,
            },
            DrawOp::Line { x0, y0, x1, y1, on, stroke } => Shape::Line {
                x0: *x0 as int,
                y0: *y0 as int,
                x1: *x1 as int,
                y1: *y1 as int,
                on: *on,
                stroke: *stroke as int,
            },
            DrawOp::Text { x, y, text } => Shape::Text { x: *x as int, y: *y as int, text: text@ },
        }
    }
}

/// The shapes a list of drawing primitives draws, in order.
pub open spec fn shapes(ops: Seq<DrawOp>) -> Seq<Shape> {
    ops.map_values(|o: DrawOp| o@)
}

proof fn lemma_shapes_push(ops: Seq<DrawOp>, op: DrawOp)
    ensures
        shapes(ops.push(op)) == shapes(ops).push(op@),
{
    assert(shapes(ops.push(op)) =~= shapes(ops).push(op@));
}

/// Pushes `op` onto `ops`, keeping track of the shapes drawn.
fn push_op(ops: &mut Vec<DrawOp>, op: DrawOp)
    ensures
        shapes(final(ops)@) == shapes(old(ops)@).push(op@),
{
    proof {
        lemma_shapes_push(ops@, op);
    }
    ops.push(op);
}

/// The filled bar that both gauges share.
pub open spec fn bar_shape() -> Shape {
    Shape::FillRect { x: BAR_LEFT as int, y: BAR_TOP as int, width: BAR_WIDTH as int, height: BAR_HEIGHT as int }
}

/// A dark reference tick across the bar at column `x`.
pub open spec fn tick_shape(x: int, stroke: int) -> Shape {
    Shape::Line {
        x0: x,
        y0: BAR_TOP - TICK_HEIGHT / 2,
        x1: x,
        y1: BAR_TOP + BAR_HEIGHT + TICK_HEIGHT / 2,
        on: false,
        stroke,
    }
}

/// The lit pointer below the bar at column `x`.
pub open spec fn pointer_shape(x: int) -> Shape {
    Shape::Line {
        x0: x,
        y0: BAR_TOP + BAR_HEIGHT + POINTER_GAP,
        x1: x,
        y1: BAR_TOP + BAR_HEIGHT + POINTER_GAP + POINTER_LEN,
        on: true,
        stroke: POINTER_STROKE as int,
    }
}

pub open spec fn text_shape(x: int, y: int, text: Seq<u8>) -> Shape {
    Shape::Text { x, y, text }
}

/// Column of the `i`-th of the five quarter ticks of the fuel gauge.
pub open spec fn quarter_tick_x(i: int) -> int {
    BAR_LEFT + (BAR_WIDTH * i) / 4
}

/// The fuel gauge for a level of `pct` percent and a battery voltage of
/// `batt_cv` hundredths of a volt.
pub open spec fn fuel_gauge_shapes(pct: int, batt_cv: int) -> Seq<Shape> {
    seq![bar_shape()]
        + Seq::new(5, |i: int| tick_shape(quarter_tick_x(i), 2))
        + seq![
        pointer_shape(BAR_LEFT + (pct * BAR_WIDTH) / 100),
        text_shape(0, LABEL_Y as int, seq![69u8]),
        text_shape(RIGHT_LABEL_X as int, LABEL_Y as int, seq![70u8]),
        text_shape(READOUT_X as int, PRIMARY_Y as int, decimal(pct as nat).push(37u8)),
        text_shape(READOUT_X as int, SECONDARY_Y as int, hundredths(batt_cv as nat).push(86u8)),
    ]
}

/// The battery voltage shown for a divider-tap code, in hundredths of a volt.
pub open spec fn battery_centivolts_of(code: int) -> int {
    round_half_up(100 * battery_volts_num(code), battery_volts_den())
}

/// The rail voltage shown for a reference code, in hundredths of a volt.
pub open spec fn rail_centivolts_of(code: int) -> int {
    round_half_up(100 * code_volts_num(if code < 1 { 1 } else { code }), code_volts_den())
}

/// The fuel gauge for a sender code, a battery-tap code and the
/// reference-rail code sampled with the sender.
pub open spec fn fuel_gauge_of_codes(adc: int, batt_adc: int, v33_adc: int) -> Seq<Shape> {
    fuel_gauge_shapes(fuel_percent_of_codes(adc, v33_adc), battery_centivolts_of(batt_adc))
}

/// Pointer offset from the bar's left end for a temperature in hundredths
/// of a degree: the position within the band, clamped, rounded half up.
pub open spec fn temp_pointer_offset(centi_f: int) -> int {
    if centi_f <= MIN_CENTI_F {
        0
    } else if centi_f >= MAX_CENTI_F {
        BAR_WIDTH as int
    } else {
        round_half_up((centi_f - MIN_CENTI_F) * BAR_WIDTH, MAX_CENTI_F - MIN_CENTI_F)
    }
}

/// Whole degrees for hundredths of a degree, halves away from zero.
pub open spec fn whole_degrees(centi_f: int) -> int {
    if centi_f >= 0 {
        (centi_f + 50) / 100
    } else {
        -((-centi_f + 50) / 100)
    }
}

/// The temperature gauge for `centi_f` hundredths of a degree Fahrenheit
/// and a rail voltage of `rail_cv` hundredths of a volt.
pub open spec fn temp_gauge_shapes(centi_f: int, rail_cv: int) -> Seq<Shape> {
    seq![
        bar_shape(),
        pointer_shape(BAR_LEFT + temp_pointer_offset(centi_f)),
        tick_shape(30, 3),
        tick_shape(98, 3),
        text_shape(0, LABEL_Y as int, seq![67u8]),
        text_shape(RIGHT_LABEL_X as int, LABEL_Y as int, seq![72u8]),
        text_shape(READOUT_X as int, PRIMARY_Y as int, signed_decimal(whole_degrees(centi_f)).push(70u8)),
        text_shape(READOUT_X as int, SECONDARY_Y as int, hundredths(rail_cv as nat).push(86u8)),
    ]
}

fn bar() -> (op: DrawOp)
    ensures
        op@ == bar_shape(),
{
    DrawOp::FillRect { x: BAR_LEFT, y: BAR_TOP, width: BAR_WIDTH as u32, height: BAR_HEIGHT as u32 }
}

fn tick(x: i32, stroke: u32) -> (op: DrawOp)
    ensures
        op@ == tick_shape(x as int, stroke as int),
{
    DrawOp::Line {
        x0: x,
        y0: BAR_TOP - TICK_HEIGHT / 2,
        x1: x,
        y1: BAR_TOP + BAR_HEIGHT + TICK_HEIGHT / 2,
        on: false,
        stroke,
    }
}

fn pointer(x: i32) -> (op: DrawOp)
    requires
        x <= 1000,
    ensures
        op@ == pointer_shape(x as int),
{
    DrawOp::Line {
        x0: x,
        y0: BAR_TOP + BAR_HEIGHT + POINTER_GAP,
        x1: x,
        y1: BAR_TOP + BAR_HEIGHT + POINTER_GAP + POINTER_LEN,
        on: true,
        stroke: POINTER_STROKE,
    }
}

/// A one-character text.
fn single(c: u8) -> (text: Vec<u8>)
    ensures
        text@ == seq![c],
{
    let mut text: Vec<u8> = Vec::new();
    text.push(c);
    assert(text@ =~= seq![c]);
    text
}

/// Text with its top-left corner at `(x, y)`.
fn label(x: i32, y: i32, text: Vec<u8>) -> (op: DrawOp)
    ensures
        op@ == text_shape(x as int, y as int, text@),
{
    DrawOp::Text { x, y, text }
}

/// Lays out the fuel gauge for a level of `pct` percent and a battery
/// voltage of `batt_cv` hundredths of a volt.
pub fn fuel_gauge(pct: u8, batt_cv: u32) -> (ops: Vec<DrawOp>)
    requires
        pct <= 100,
    ensures
        shapes(ops@) == fuel_gauge_shapes(pct as int, batt_cv as int),
{
    let mut ops: Vec<DrawOp> = Vec::new();
    assert(shapes(ops@) =~= Seq::<Shape>::empty());
    push_op(&mut ops, bar());
    let mut i: i32 = 0;
    while i <= 4
        invariant
            0 <= i <= 5,
            shapes(ops@) =~= seq![bar_shape()] + Seq::new(i as nat, |k: int| tick_shape(quarter_tick_x(k), 2)),
        decreases 5 - i,
    {
        push_op(&mut ops, tick(BAR_LEFT + (BAR_WIDTH * i) / 4, 2));
        i = i + 1;
        assert(shapes(ops@) =~= seq![bar_shape()] + Seq::new(i as nat, |k: int| tick_shape(quarter_tick_x(k), 2)));
    }
    push_op(&mut ops, pointer(BAR_LEFT + (pct as i32 * BAR_WIDTH) / 100));
    push_op(&mut ops, label(0, LABEL_Y, single(69)));
    push_op(&mut ops, label(RIGHT_LABEL_X, LABEL_Y, single(70)));
    let mut primary: Vec<u8> = Vec::new();
    push_decimal(&mut primary, pct as u32);
    primary.push(37);
    assert(primary@ =~= decimal(pct as nat).push(37u8));
    push_op(&mut ops, label(READOUT_X, PRIMARY_Y, primary));
    let mut secondary: Vec<u8> = Vec::new();
    push_hundredths(&mut secondary, batt_cv);
    secondary.push(86);
    assert(secondary@ =~= hundredths(batt_cv as nat).push(86u8));
    push_op(&mut ops, label(READOUT_X, SECONDARY_Y, secondary));
    assert(shapes(ops@) =~= fuel_gauge_shapes(pct as int, batt_cv as int));
    ops
}

/// Lays out the fuel gauge for a sender code, a battery-tap code and the
/// reference-rail code sampled with the sender.
pub fn draw_fuel_gauge(adc: i16, batt_adc: i16, v33_adc: i16) -> (ops: Vec<DrawOp>)
    ensures
        shapes(ops@) == fuel_gauge_of_codes(adc as int, batt_adc as int, v33_adc as int),
{
    let pct = fuel_percent_from_codes(adc, v33_adc);
    let batt_cv = battery_centivolts(batt_adc);
    fuel_gauge(pct, batt_cv)
}

/// Pointer offset from the bar's left end for `centi_f` hundredths of a degree.
fn temp_offset(centi_f: i32) -> (off: i32)
    ensures
        off as int == temp_pointer_offset(centi_f as int),
        0 <= off <= BAR_WIDTH,
{
    if centi_f <= MIN_CENTI_F {
        0
    } else if centi_f >= MAX_CENTI_F {
        BAR_WIDTH
    } else {
        let x = centi_f - MIN_CENTI_F;
        let span = MAX_CENTI_F - MIN_CENTI_F;
        assert((2 * (x * 98) + 15000) / (2 * 15000int) <= 98) by (nonlinear_arith)
            requires
                0 < x < 15000,
        ;
        (2 * (x * BAR_WIDTH) + span) / (2 * span)
    }
}

/// Whole degrees for `centi_f` hundredths of a degree, halves away from zero.
fn rounded_degrees(centi_f: i32) -> (deg: i32)
    ensures
        deg as int == whole_degrees(centi_f as int),
{
    let c = centi_f as i64;
    if c >= 0 {
        ((c + 50) / 100) as i32
    } else {
        (-((-c + 50) / 100)) as i32
    }
}

/// Lays out the temperature gauge for `centi_f` hundredths of a degree
/// Fahrenheit and a rail voltage of `rail_cv` hundredths of a volt.
pub fn temp_gauge(centi_f: i32, rail_cv: u32) -> (ops: Vec<DrawOp>)
    ensures
        shapes(ops@) == temp_gauge_shapes(centi_f as int, rail_cv as int),
{
    let mut ops: Vec<DrawOp> = Vec::new();
    assert(shapes(ops@) =~= Seq::<Shape>::empty());
    push_op(&mut ops, bar());
    push_op(&mut ops, pointer(BAR_LEFT + temp_offset(centi_f)));
    push_op(&mut ops, tick(30, 3));
    push_op(&mut ops, tick(98, 3));
    push_op(&mut ops, label(0, LABEL_Y, single(67)));
    push_op(&mut ops, label(RIGHT_LABEL_X, LABEL_Y, single(72)));
    let mut primary: Vec<u8> = Vec::new();
    push_signed_decimal(&mut primary, rounded_degrees(centi_f));
    primary.push(70);
    assert(primary@ =~= signed_decimal(whole_degrees(centi_f as int)).push(70u8));
    push_op(&mut ops, label(READOUT_X, PRIMARY_Y, primary));
    let mut secondary: Vec<u8> = Vec::new();
    push_hundredths(&mut secondary, rail_cv);
    secondary.push(86);
    assert(secondary@ =~= hundredths(rail_cv as nat).push(86u8));
    push_op(&mut ops, label(READOUT_X, SECONDARY_Y, secondary));
    assert(shapes(ops@) =~= temp_gauge_shapes(centi_f as int, rail_cv as int));
    ops
}

/// Lays out the temperature gauge for `centi_f` hundredths of a degree
/// Fahrenheit and the reference-rail code sampled with the thermistor; the
/// rail code is floored at 1 before it is shown in volts.
pub fn draw_temp_gauge(centi_f: i32, v33_adc: i16) -> (ops: Vec<DrawOp>)
    ensures
        shapes(ops@) == temp_gauge_shapes(centi_f as int, rail_centivolts_of(v33_adc as int)),
{
    let rail = if v33_adc < 1 { 1 } else { v33_adc };
    temp_gauge(centi_f, code_to_centivolts(rail))
}

/// Laying out the same readings twice draws the same shapes: the layout
/// depends on the readings alone.
pub proof fn lemma_layout_repeatable(
    adc1: i16, batt1: i16, v1: i16, adc2: i16, batt2: i16, v2: i16,
    t1: i32, t2: i32, rail1: i16, rail2: i16,
)
    requires
        adc1 == adc2,
        batt1 == batt2,
        v1 == v2,
        t1 == t2,
        rail1 == rail2,
    ensures
        fuel_gauge_of_codes(adc1 as int, batt1 as int, v1 as int)
            == fuel_gauge_of_codes(adc2 as int, batt2 as int, v2 as int),
        temp_gauge_shapes(t1 as int, rail_centivolts_of(rail1 as int))
            == temp_gauge_shapes(t2 as int, rail_centivolts_of(rail2 as int)),
{
}

} // verus!
