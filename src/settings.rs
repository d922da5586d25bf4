//! The overlay's settings, and how values read from the user's
//! configuration override the defaults.

use vstd::prelude::*;

verus! {

#[verifier::external_type_specification]
#[verifier::external_body]
pub struct ExConfig(::config::Config);

#[verifier::external_type_specification]
#[verifier::external_body]
pub struct ExValue(::config::Value);

/// The integer that a configuration holds at a key, if it holds one there.
pub uninterp spec fn int_at(c: ::config::Config, key: Seq<char>) -> Option<i64>;

/// The list that a configuration holds at a key, if it holds one there.
pub uninterp spec fn array_at(c: ::config::Config, key: Seq<char>) -> Option<Seq<::config::Value>>;

/// A configuration entry read as an unsigned integer, if it can be.
pub uninterp spec fn uint_of(v: ::config::Value) -> Option<u64>;

/// Whether `key` is a plain dotted path, without the subscripts that
/// `config` resolves with index arithmetic.
pub open spec fn plain_key(key: Seq<char>) -> bool {
    forall|i: int| 0 <= i < key.len() ==> key[i] != '[' && key[i] != ']'
}

/// Relies on `config::Config::get_int`: the integer at `key`, if the
/// configuration holds one there; it depends on the configuration and the
/// key alone.
#[verifier::external_body]
fn lookup_int(config: &::config::Config, key: &str) -> (r: Option<i64>)
    requires
        plain_key(key@),
    ensures
        r == int_at(*config, key@),
{
    config.get_int(key).ok()
}

/// Relies on `config::Config::get_array`: the list at `key`, if the
/// configuration holds one there; it depends on the configuration and the
/// key alone.
#[verifier::external_body]
fn lookup_array(config: &::config::Config, key: &str) -> (r: Option<Vec<::config::Value>>)
    requires
        plain_key(key@),
    ensures
        match r {
            Some(v) => array_at(*config, key@) == Some(v@),
            None => array_at(*config, key@) == None::<Seq<::config::Value>>,
        },
{
    config.get_array(key).ok()
}

/// Relies on `config::Value::into_uint`: the entry as an unsigned integer,
/// if it can be read as one; it depends on the entry alone.
#[verifier::external_body]
fn unsigned(value: ::config::Value) -> (r: Option<u64>)
    ensures
        r == uint_of(value),
{
    value.into_uint().ok()
}

/// A configured list read channel by channel.
pub open spec fn channels_from(a: Option<Seq<::config::Value>>) -> Option<Seq<Option<u64>>> {
    match a {
        Some(v) => Some(Seq::new(v.len(), |i: int| uint_of(v[i]))),
        None => None,
    }
}

/// Smallest and largest panel height, in pixels.
pub const MIN_HEIGHT: i64 = 40;
pub const MAX_HEIGHT: i64 = 400;
/// Smallest and largest panel width, in pixels.
pub const MIN_WIDTH: i64 = 100;
pub const MAX_WIDTH: i64 = 800;

/// An sRGB color with 8-bit channels and straight alpha.
#[derive(Clone, Copy, Debug, PartialEq, Eq, Structural)]
pub struct Color {
    pub r: u8,
    pub g: u8,
    pub b: u8,
    pub a: u8,
}

impl Color {
    /// A color from its four channels.
    pub fn from_rgba8(r: u8, g: u8, b: u8, a: u8) -> (c: Color)
        ensures
            c == (Color { r, g, b, a }),
    {
        Color { r, g, b, a }
    }

    /// An opaque color from its three color channels.
    pub fn from_rgb8(r: u8, g: u8, b: u8) -> (c: Color)
        ensures
            c == (Color { r, g, b, a: 255 }),
    {
        Color { r, g, b, a: 255 }
    }
}

/// What the overlay is drawn with: panel size (width, height), its offset
/// from the screen edge (x, y), and its two colors.
#[derive(Clone, Copy, Debug)]
pub struct Settings {
    size: (u32, u32),
    position: (i32, i32),
    background_color: Color,
    foreground_color: Color,
}

/// The values a user's configuration may set; `None` where it sets none.
/// A color is the list of its channels, each `None` where the entry is not
/// an unsigned integer.
pub struct Overrides {
    pub height: Option<i64>,
    pub width: Option<i64>,
    pub x: Option<i64>,
    pub y: Option<i64>,
    pub background: Option<Vec<Option<u64>>>,
    pub foreground: Option<Vec<Option<u64>>>,
}

/// `v` held within `[lo, hi]`.
pub open spec fn clamp(v: i64, lo: i64, hi: i64) -> i64 {
    if v < lo {
        lo
    } else if v > hi {
        hi
    } else {
        v
    }
}

/// The size after the configured height and width are applied.
pub open spec fn sized(size: (u32, u32), height: Option<i64>, width: Option<i64>) -> (u32, u32) {
    (
        match width {
            Some(w) => clamp(w, MIN_WIDTH, MAX_WIDTH) as u32,
            None => size.0,
        },
        match height {
            Some(h) => clamp(h, MIN_HEIGHT, MAX_HEIGHT) as u32,
            None => size.1,
        },
    )
}

/// The largest and smallest offsets, in pixels.
pub const MAX_OFFSET: i64 = 2147483647;
pub const MIN_OFFSET: i64 = -2147483648;

/// The position after the configured offsets are applied: `x` held within
/// the offsets a surface takes, `y` within zero and the largest offset.
pub open spec fn positioned(position: (i32, i32), x: Option<i64>, y: Option<i64>) -> (i32, i32) {
    (
        match x {
            Some(v) => clamp(v, MIN_OFFSET, MAX_OFFSET) as i32,
            None => position.0,
        },
        match y {
            Some(v) => clamp(v, 0, MAX_OFFSET) as i32,
            None => position.1,
        },
    )
}

/// One configured channel: its low 8 bits, or 0 where it is no unsigned
/// integer.
pub open spec fn channel(v: Option<u64>) -> u8 {
    match v {
        Some(n) => n as u8,
        None => 0,
    }
}

/// Whether a configured color is rejected: it has neither 3 nor 4 channels.
pub open spec fn color_rejected(values: Option<Seq<Option<u64>>>) -> bool {
    match values {
        Some(v) => v.len() != 3 && v.len() != 4,
        None => false,
    }
}

/// The color after a configured one is applied.
pub open spec fn colored(color: Color, values: Option<Seq<Option<u64>>>) -> Color {
    match values {
        Some(v) => if v.len() == 3 {
            Color { r: channel(v[0]), g: channel(v[1]), b: channel(v[2]), a: 255 }
        } else if v.len() == 4 {
            Color { r: channel(v[0]), g: channel(v[1]), b: channel(v[2]), a: channel(v[3]) }
        } else {
            color
        },
        None => color,
    }
}

/// The view of an optional list of channels.
pub open spec fn channels_of(values: Option<Vec<Option<u64>>>) -> Option<Seq<Option<u64>>> {
    match values {
        Some(v) => Some(v@),
        None => None,
    }
}

/// Applies a configured height and width, each held within its bounds.
pub fn set_size(size: &mut (u32, u32), height: Option<i64>, width: Option<i64>)
    ensures
        *final(size) == sized(*old(size), height, width),
{
    if let Some(h) = height {
        let h = if h > MAX_HEIGHT { MAX_HEIGHT } else { h };
        let h = if h < MIN_HEIGHT { MIN_HEIGHT } else { h };
        size.1 = h as u32;
    }
    if let Some(w) = width {
        let w = if w > MAX_WIDTH { MAX_WIDTH } else { w };
        let w = if w < MIN_WIDTH { MIN_WIDTH } else { w };
        size.0 = w as u32;
    }
}

/// Applies configured offsets, each held within what an `i32` offset holds.
/// The panel sits at the bottom of the screen, so `y` is never negative.
pub fn set_position(position: &mut (i32, i32), x: Option<i64>, y: Option<i64>)
    ensures
        *final(position) == positioned(*old(position), x, y),
{
    if let Some(v) = x {
        let v = if v > MAX_OFFSET { MAX_OFFSET } else { v };
        let v = if v < MIN_OFFSET { MIN_OFFSET } else { v };
        position.0 = v as i32;
    }
    if let Some(v) = y {
        let v = if v > MAX_OFFSET { MAX_OFFSET } else { v };
        let v = if v < 0 { 0 } else { v };
        position.1 = v as i32;
    }
}

fn channel_value(v: Option<u64>) -> (r: u8)
    ensures
        r == channel(v),
{
    match v {
        Some(n) => n as u8,
        None => 0,
    }
}

/// Applies a configured color given as 3 (opaque) or 4 channels. Any other
/// number of channels leaves the color as it is; the result says whether
/// that happened.
pub fn set_color(color: &mut Color, values: &Option<Vec<Option<u64>>>) -> (rejected: bool)
    ensures
        *final(color) == colored(*old(color), channels_of(*values)),
        rejected == color_rejected(channels_of(*values)),
{
    match values {
        Some(v) => {
            if v.len() == 3 {
                *color = Color::from_rgb8(
                    channel_value(v[0]),
                    channel_value(v[1]),
                    channel_value(v[2]),
                );
                false
            } else if v.len() == 4 {
                *color = Color::from_rgba8(
                    channel_value(v[0]),
                    channel_value(v[1]),
                    channel_value(v[2]),
                    channel_value(v[3]),
                );
                false
            } else {
                true
            }
        },
        None => false,
    }
}

/// Each entry of the list at `key` as an unsigned integer, `None` where it
/// is none; `None` where there is no list.
fn channels_at(config: &::config::Config, key: &str) -> (r: Option<Vec<Option<u64>>>)
    requires
        plain_key(key@),
    ensures
        channels_of(r) == channels_from(array_at(*config, key@)),
{
    match lookup_array(config, key) {
        Some(values) => {
            let ghost all = values@;
            let mut values = values;
            let mut out: Vec<Option<u64>> = Vec::new();
            while values.len() > 0
                invariant
                    out@.len() + values@.len() == all.len(),
                    values@ == all.subrange(out@.len() as int, all.len() as int),
                    forall|i: int| 0 <= i < out@.len() ==> out@[i] == uint_of(all[i]),
                decreases values.len(),
            {
                let ghost k = out@.len() as int;
                assert(values@[0] == all[k]);
                let v = values.remove(0);
                out.push(unsigned(v));
                assert(values@ =~= all.subrange(k + 1, all.len() as int));
            }
            assert(out@ =~= Seq::new(all.len(), |i: int| uint_of(all[i])));
            Some(out)
        },
        None => None,
    }
}

impl Overrides {
    /// The values a configuration sets for the panel's size, offsets and
    /// colors.
    fn read(config: &::config::Config) -> (r: Overrides)
        ensures
            r.height == int_at(*config, "frame.size.height"@),
            r.width == int_at(*config, "frame.size.width"@),
            r.x == int_at(*config, "frame.position.x"@),
            r.y == int_at(*config, "frame.position.y"@),
            channels_of(r.background) == channels_from(array_at(*config, "color.background"@)),
            channels_of(r.foreground) == channels_from(array_at(*config, "color.foreground"@)),
    {
        proof {
            reveal_strlit("frame.size.height");
            reveal_strlit("frame.size.width");
            reveal_strlit("frame.position.x");
            reveal_strlit("frame.position.y");
            reveal_strlit("color.background");
            reveal_strlit("color.foreground");
        }
        Overrides {
            height: lookup_int(config, "frame.size.height"),
            width: lookup_int(config, "frame.size.width"),
            x: lookup_int(config, "frame.position.x"),
            y: lookup_int(config, "frame.position.y"),
            background: channels_at(config, "color.background"),
            foreground: channels_at(config, "color.foreground"),
        }
    }
}

/// Whether `r` is the defaults with these configured values applied, with
/// the flag saying whether a configured color was rejected.
pub open spec fn configured(
    r: (Settings, bool),
    height: Option<i64>,
    width: Option<i64>,
    x: Option<i64>,
    y: Option<i64>,
    background: Option<Seq<Option<u64>>>,
    foreground: Option<Seq<Option<u64>>>,
) -> bool {
    &&& r.0.size_of() == sized((300, 300), height, width)
    &&& r.0.position_of() == positioned((0, 250), x, y)
    &&& r.0.background_of() == colored(Color { r: 42, g: 40, b: 68, a: 220 }, background)
    &&& r.0.foreground_of() == colored(Color { r: 255, g: 255, b: 255, a: 150 }, foreground)
    &&& r.1 == (color_rejected(background) || color_rejected(foreground))
}

/// Whether `r` is the defaults with the overrides `o` applied.
pub open spec fn applied(r: (Settings, bool), o: Overrides) -> bool {
    configured(r, o.height, o.width, o.x, o.y, channels_of(o.background), channels_of(o.foreground))
}

impl Settings {
    pub closed spec fn size_of(&self) -> (u32, u32) {
        self.size
    }

    pub closed spec fn position_of(&self) -> (i32, i32) {
        self.position
    }

    pub closed spec fn background_of(&self) -> Color {
        self.background_color
    }

    pub closed spec fn foreground_of(&self) -> Color {
        self.foreground_color
    }

    /// The settings with every configured value applied to the defaults.
    /// The flag says whether a configured color was rejected.
    pub fn new(o: &Overrides) -> (r: (Settings, bool))
        ensures
            applied(r, *o),
    {
        let mut s = Settings::default();
        set_size(&mut s.size, o.height, o.width);
        set_position(&mut s.position, o.x, o.y);
        let bad_background = set_color(&mut s.background_color, &o.background);
        let bad_foreground = set_color(&mut s.foreground_color, &o.foreground);
        (s, bad_background || bad_foreground)
    }

    /// The settings with the values that `config` holds at `frame.size.*`,
    /// `frame.position.*` and `color.*` applied to the defaults; the flag
    /// says whether a configured color was rejected.
    pub fn load(config: &::config::Config) -> (r: (Settings, bool))
        ensures
            configured(
                r,
                int_at(*config, "frame.size.height"@),
                int_at(*config, "frame.size.width"@),
                int_at(*config, "frame.position.x"@),
                int_at(*config, "frame.position.y"@),
                channels_from(array_at(*config, "color.background"@)),
                channels_from(array_at(*config, "color.foreground"@)),
            ),
    {
        let o = Overrides::read(config);
        Settings::new(&o)
    }

    /// Panel size, (width, height) in pixels.
    pub fn size(&self) -> (r: (u32, u32))
        ensures
            r == self.size_of(),
    {
        self.size
    }

    /// Offset of the panel from the screen edge, (x, y) in pixels.
    pub fn position(&self) -> (r: (i32, i32))
        ensures
            r == self.position_of(),
    {
        self.position
    }

    /// Color of the panel.
    pub fn background_color(&self) -> (r: Color)
        ensures
            r == self.background_of(),
    {
        self.background_color
    }

    /// Color of the text.
    pub fn foreground_color(&self) -> (r: Color)
        ensures
            r == self.foreground_of(),
    {
        self.foreground_color
    }
}

impl Default for Settings {
    /// A 300 by 300 panel, 250 pixels up from the bottom edge, light text on
    /// a translucent dark violet.
    fn default() -> (r: Settings)
        ensures
            r.size_of() == (300u32, 300u32),
            r.position_of() == (0i32, 250i32),
            r.background_of() == (Color { r: 42, g: 40, b: 68, a: 220 }),
            r.foreground_of() == (Color { r: 255, g: 255, b: 255, a: 150 }),
    {
        Settings {
            size: (300, 300),
            position: (0, 250),
            background_color: Color::from_rgba8(42, 40, 68, 220),
            foreground_color: Color::from_rgba8(255, 255, 255, 150),
        }
    }
}

} // verus!
