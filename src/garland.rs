//! Colors, the dampening transform and the scrolling frame of the strip.
use vstd::prelude::*;

verus! {

/// Number of LEDs in the strip.
pub const LED_NUMBER: usize = 300;

/// One LED's color: three 8-bit channels.
#[derive(Clone, Copy, Debug, PartialEq, Eq, Structural)]
pub struct Color {
    pub r: u8,
    pub g: u8,
    pub b: u8,
}

/// The color with every channel off.
pub open spec fn dark() -> Color {
    Color { r: 0, g: 0, b: 0 }
}

impl Default for Color {
    fn default() -> (c: Self)
        ensures
            c == dark(),
    {
        Color { r: 0, g: 0, b: 0 }
    }
}

/// All the LED colors of the strip; index 0 holds the newest color.
pub type ColorFrame = [Color; LED_NUMBER];

/// The larger of two channel values.
pub open spec fn larger(one: u8, two: u8) -> u8 {
    if one >= two {
        one
    } else {
        two
    }
}

/// The largest of three channel values.
pub open spec fn largest(one: u8, two: u8, three: u8) -> u8 {
    larger(one, larger(two, three))
}

/// What the dampening transform makes of a color: the dominant channel is
/// kept and the other two are divided, the red channel winning ties, then
/// the green one.
pub open spec fn dampened(c: Color) -> Color {
    if c.r >= c.g && c.r >= c.b {
        Color { r: c.r, g: (c.g / 3) as u8, b: (c.b / 3) as u8 }
    } else if c.g >= c.b {
        Color { r: (c.r / 3) as u8, g: c.g, b: (c.b / 3) as u8 }
    } else {
        Color { r: (c.r / 4) as u8, g: (c.g / 4) as u8, b: c.b }
    }
}

/// Make a pastel color less pastel by decreasing two of its three channels.
pub fn no_pastel(color: Color) -> (res: Color)
    ensures
        res == dampened(color),
{
    let mut res = color;
    let top = max(color.r, color.g, color.b);
    if color.r == top {
        res.g = res.g / 3;
        res.b = res.b / 3;
    } else if color.g == top {
        res.r = res.r / 3;
        res.b = res.b / 3;
    } else {
        res.r = res.r / 4;
        res.g = res.g / 4;
    }
    res
}

/// The largest of three channel values.
pub fn max(one: u8, two: u8, three: u8) -> (r: u8)
    ensures
        r == largest(one, two, three),
        r >= one && r >= two && r >= three,
        r == one || r == two || r == three,
{
    max2(one, max2(two, three))
}

/// The larger of two channel values.
pub fn max2(one: u8, two: u8) -> (r: u8)
    ensures
        r == larger(one, two),
        r >= one && r >= two,
{
    if one > two {
        one
    } else {
        two
    }
}

/// A frame after one update: the new color in front, every retained color
/// one place further back, the oldest one gone.
pub open spec fn shifted(frame: Seq<Color>, color: Color) -> Seq<Color> {
    seq![color] + frame.drop_last()
}

/// A frame after the colors of `inputs` have arrived one at a time, in order.
pub open spec fn shifted_all(frame: Seq<Color>, inputs: Seq<Color>) -> Seq<Color>
    decreases inputs.len(),
{
    if inputs.len() == 0 {
        frame
    } else {
        shifted(shifted_all(frame, inputs.drop_last()), inputs.last())
    }
}

/// A frame with every LED dark.
pub fn dark_frame() -> (frame: ColorFrame)
    ensures
        forall|i: int| 0 <= i < LED_NUMBER ==> #[trigger] frame@[i] == dark(),
{
    [Color { r: 0, g: 0, b: 0 }; LED_NUMBER]
}

/// Move every color one place toward the end of the frame, dropping the
/// oldest, and put `color` at the front.
pub fn shift_in(frame: &mut ColorFrame, color: Color)
    ensures
        final(frame)@ == shifted(old(frame)@, color),
        final(frame)@[0] == color,
        forall|i: int| 1 <= i < LED_NUMBER ==> #[trigger] final(frame)@[i] == old(frame)@[i - 1],
{
    let ghost before = frame@;
    let mut index: usize = LED_NUMBER - 1;
    while index > 0
        invariant
            index < LED_NUMBER,
            frame@.len() == LED_NUMBER,
            before.len() == LED_NUMBER,
            forall|i: int| 0 <= i <= index ==> #[trigger] frame@[i] == before[i],
            forall|i: int| index < i < LED_NUMBER ==> #[trigger] frame@[i] == before[i - 1],
        decreases index,
    {
        frame[index] = frame[index - 1];
        index -= 1;
    }
    frame[0] = color;
    assert(frame@ =~= shifted(before, color));
}

/// After at most `LED_NUMBER` colors have arrived one at a time, the frame
/// holds them newest first, followed by the front of the frame as it was
/// before the first of them, cut to the strip's length.
pub proof fn lemma_history(frame: Seq<Color>, inputs: Seq<Color>)
    requires
        frame.len() == LED_NUMBER,
        inputs.len() <= LED_NUMBER,
    ensures
        shifted_all(frame, inputs) == inputs.reverse() + frame.take(
            LED_NUMBER - inputs.len(),
        ),
        shifted_all(frame, inputs).len() == LED_NUMBER,
    decreases inputs.len(),
{
    let n = LED_NUMBER as int;
    let k = inputs.len() as int;
    if k == 0 {
        assert(inputs.reverse() =~= Seq::<Color>::empty());
        assert(frame.take(n) =~= frame);
        assert(inputs.reverse() + frame.take(n) =~= frame);
    } else {
        let earlier = inputs.drop_last();
        lemma_history(frame, earlier);
        assert(inputs.reverse() =~= seq![inputs.last()] + earlier.reverse());
        assert(shifted_all(frame, inputs) =~= inputs.reverse() + frame.take(n - k));
    }
}

/// Once `LED_NUMBER` colors have arrived one at a time, the frame holds
/// exactly those colors in reverse order of arrival: the newest at index 0,
/// the first one at the last index. Nothing of the earlier frame is left.
pub proof fn lemma_refill_reverses(frame: Seq<Color>, inputs: Seq<Color>)
    requires
        frame.len() == LED_NUMBER,
        inputs.len() == LED_NUMBER,
    ensures
        shifted_all(frame, inputs) == inputs.reverse(),
        forall|i: int|
            0 <= i < LED_NUMBER ==> #[trigger] shifted_all(frame, inputs)[i] == inputs[LED_NUMBER
                - 1 - i],
{
    lemma_history(frame, inputs);
    assert(frame.take(0) =~= Seq::<Color>::empty());
    assert(inputs.reverse() + frame.take(0) =~= inputs.reverse());
}

} // verus!
