//! The data structures of the binary container format, as the loader
//! hands them over: plain values, with text and byte runs owned.
//!
//! Quantities that the format stores as floating point — matrix scale
//! terms — are carried as their 32-bit IEEE encodings, opaque to the
//! engine. Flag sets that the format packs into bit fields are written
//! out as constants over a plain integer field.

use vstd::prelude::*;

verus! {

/// The depth of a display-list entry.
pub type Depth = u16;

/// The id of a defined character.
pub type CharacterId = u16;

/// A key code used in button and clip key-press events.
pub type KeyCode = u8;

/// The compression format wrapped around the rest of the file.
#[derive(Debug, PartialEq, Eq, Structural, Clone, Copy)]
pub enum Compression {
    Uncompressed,
    Zlib,
    Lzma,
}

/// A twip: one twentieth of a pixel, the format's coordinate unit.
#[derive(Debug, PartialEq, Eq, Structural, Clone, Copy)]
pub struct Twips(pub i32);

impl Twips {
    /// Wraps a twip count.
    pub fn new(twips: i32) -> (r: Twips)
        ensures
            r.0 == twips,
    {
        Twips(twips)
    }

    /// Zero twips.
    pub fn zero() -> (r: Twips)
        ensures
            r.0 == 0,
    {
        Twips(0)
    }

    /// The twip count.
    pub fn get(self) -> (r: i32)
        ensures
            r == self.0,
    {
        self.0
    }

    /// The difference, saturating at the numeric bounds instead of
    /// overflowing.
    pub fn saturating_sub(self, rhs: Twips) -> (r: Twips)
        ensures
            r.0 == if self.0 - rhs.0 > i32::MAX {
                i32::MAX as int
            } else if self.0 - rhs.0 < i32::MIN {
                i32::MIN as int
            } else {
                self.0 - rhs.0
            },
    {
        let d: i64 = (self.0 as i64) - (rhs.0 as i64);
        if d > i32::MAX as i64 {
            Twips(i32::MAX)
        } else if d < i32::MIN as i64 {
            Twips(i32::MIN)
        } else {
            Twips(d as i32)
        }
    }
}

/// A rectangular region, by its extreme coordinates in twips.
#[derive(Debug, PartialEq, Eq, Structural, Clone)]
pub struct Rectangle {
    pub x_min: Twips,
    pub x_max: Twips,
    pub y_min: Twips,
    pub y_max: Twips,
}

/// An RGBA color, one byte per component.
#[derive(Debug, PartialEq, Eq, Structural, Clone)]
pub struct Color {
    pub r: u8,
    pub g: u8,
    pub b: u8,
    pub a: u8,
}

impl Color {
    /// A color from a packed `XXRRGGBB` value and a separate alpha; the
    /// top byte of the packed value is ignored.
    pub fn from_rgb(rgb: u32, alpha: u8) -> (r: Color)
        ensures
            r.r == (rgb >> 16u32) as u8,
            r.g == (rgb >> 8u32) as u8,
            r.b == rgb as u8,
            r.a == alpha,
    {
        proof {
            assert(((rgb & 0xFF_0000u32) >> 16u32) == ((rgb >> 16u32) & 0xFFu32))
                by (bit_vector);
            assert(((rgb & 0x00_FF00u32) >> 8u32) == ((rgb >> 8u32) & 0xFFu32)) by (bit_vector);
            assert((rgb & 0xFFu32) == (rgb & 0x00_00FFu32)) by (bit_vector);
            assert(((rgb >> 16u32) & 0xFFu32) < 256u32) by (bit_vector);
            assert(((rgb >> 8u32) & 0xFFu32) < 256u32) by (bit_vector);
            assert((rgb & 0xFFu32) < 256u32) by (bit_vector);
            assert(((rgb >> 16u32) & 0xFFu32) == ((rgb >> 16u32) as u8) as u32) by (bit_vector);
            assert(((rgb >> 8u32) & 0xFFu32) == ((rgb >> 8u32) as u8) as u32) by (bit_vector);
            assert((rgb & 0xFFu32) == (rgb as u8) as u32) by (bit_vector);
        }
        Color {
            r: ((rgb & 0xFF_0000) >> 16) as u8,
            g: ((rgb & 0x00_FF00) >> 8) as u8,
            b: (rgb & 0x00_00FF) as u8,
            a: alpha,
        }
    }

    /// The packed `RRGGBB` value; the alpha is not stored.
    pub fn to_rgb(&self) -> (r: u32)
        ensures
            r == ((self.r as u32) << 16u32) | ((self.g as u32) << 8u32) | (self.b as u32),
    {
        ((self.r as u32) << 16) | ((self.g as u32) << 8) | (self.b as u32)
    }
}

/// A 2x3 transform: the four scale and rotation terms as 32-bit IEEE
/// encodings, the translation in twips.
#[derive(Debug, PartialEq, Eq, Structural, Clone)]
pub struct Matrix {
    pub a: u32,
    pub b: u32,
    pub c: u32,
    pub d: u32,
    pub tx: Twips,
    pub ty: Twips,
}

/// The language of a font's text.
#[derive(Clone, Copy, Debug, Eq, PartialEq, Structural)]
pub enum Language {
    Unknown,
    Latin,
    Japanese,
    Korean,
    SimplifiedChinese,
    TraditionalChinese,
}

/// The file-level attribute flags.
#[derive(Debug, PartialEq, Eq, Structural, Clone)]
pub struct FileAttributes {
    pub use_direct_blit: bool,
    pub use_gpu: bool,
    pub has_metadata: bool,
    pub is_action_script_3: bool,
    pub use_network_sandbox: bool,
}

/// A named frame label.
#[derive(Debug, Clone)]
pub struct FrameLabel {
    pub label: String,
    pub is_anchor: bool,
}

/// The scene and frame-label table of a file.
#[derive(Debug, Clone)]
pub struct DefineSceneAndFrameLabelData {
    pub scenes: Vec<FrameLabelData>,
    pub frame_labels: Vec<FrameLabelData>,
}

/// One scene or frame label with its frame number.
#[derive(Debug, Clone)]
pub struct FrameLabelData {
    pub frame_num: u32,
    pub label: String,
}

/// What a placement tag does at its depth.
#[derive(Debug, PartialEq, Eq, Structural, Clone, Copy)]
pub enum PlaceObjectAction {
    Place(CharacterId),
    Modify,
    Replace(CharacterId),
}

/// The blend mode of a placed object.
#[derive(Debug, PartialEq, Eq, Structural, Clone, Copy)]
pub enum BlendMode {
    Normal,
    Layer,
    Multiply,
    Screen,
    Lighten,
    Darken,
    Difference,
    Add,
    Subtract,
    Invert,
    Alpha,
    Erase,
    Overlay,
    HardLight,
}

/// The clip event a handler is attached to: construction.
pub const CLIP_EVENT_CONSTRUCT: u32 = 1;

/// The clip event a handler is attached to: data arrival.
pub const CLIP_EVENT_DATA: u32 = 2;

/// The clip event a handler is attached to: entering a frame.
pub const CLIP_EVENT_ENTER_FRAME: u32 = 16;

/// The clip event a handler is attached to: initialization.
pub const CLIP_EVENT_INITIALIZE: u32 = 32;

/// The clip event a handler is attached to: loading.
pub const CLIP_EVENT_LOAD: u32 = 512;

/// The clip event a handler is attached to: unloading.
pub const CLIP_EVENT_UNLOAD: u32 = 262144;

/// The event set a clip handler is attached to, as the format's packed
/// flag bits.
#[derive(Debug, PartialEq, Eq, Structural, Clone, Copy)]
pub struct ClipEventFlag {
    pub bits: u32,
}

impl ClipEventFlag {
    /// True when every bit of `flag` is set.
    pub fn contains(&self, flag: u32) -> (r: bool)
        ensures
            r == (self.bits & flag == flag),
    {
        self.bits & flag == flag
    }
}

/// A clip handler placed on a movie-clip instance.
#[derive(Debug, Clone)]
pub struct ClipAction {
    pub events: ClipEventFlag,
    pub key_code: Option<KeyCode>,
    pub action_data: Vec<u8>,
}

/// One asset exported by name.
#[derive(Debug, Clone)]
pub struct ExportedAsset {
    pub id: CharacterId,
    pub name: String,
}

/// Removal of the object at a depth.
#[derive(Debug, PartialEq, Eq, Structural, Clone)]
pub struct RemoveObject {
    pub depth: Depth,
    pub character_id: Option<CharacterId>,
}

/// The link of a character to its script class.
#[derive(Debug, Clone)]
pub struct SymbolClassLink {
    pub id: CharacterId,
    pub class_name: String,
}

/// The bit-width context a shape is read under.
#[derive(Debug, PartialEq, Eq, Structural, Clone)]
pub struct ShapeContext {
    pub swf_version: u8,
    pub shape_version: u8,
    pub num_fill_bits: u8,
    pub num_line_bits: u8,
}

/// A defined sound and its sample data.
#[derive(Debug, Clone)]
pub struct Sound {
    pub id: CharacterId,
    pub format: SoundFormat,
    pub num_samples: u32,
    pub data: Vec<u8>,
}

/// How a sound start interacts with already-playing instances.
#[derive(Debug, PartialEq, Eq, Structural, Clone, Copy)]
pub enum SoundEvent {
    Event,
    Start,
    Stop,
}

/// A gradient fill's geometry and color ramp.
#[derive(Debug, Clone)]
pub struct Gradient {
    pub matrix: Matrix,
    pub spread: GradientSpread,
    pub interpolation: GradientInterpolation,
    pub records: Vec<GradientRecord>,
}

/// How a gradient continues past its ends.
#[derive(Debug, PartialEq, Eq, Structural, Clone, Copy)]
pub enum GradientSpread {
    Pad,
    Reflect,
    Repeat,
}

/// The color space a gradient interpolates in.
#[derive(Debug, PartialEq, Eq, Structural, Clone, Copy)]
pub enum GradientInterpolation {
    Rgb,
    LinearRgb,
}

/// One stop of a gradient's color ramp.
#[derive(Debug, PartialEq, Eq, Structural, Clone)]
pub struct GradientRecord {
    pub ratio: u8,
    pub color: Color,
}

/// The shape of a stroke's cap.
#[derive(Debug, PartialEq, Eq, Structural, Clone, Copy)]
pub enum LineCapStyle {
    Round,
    Flat,
    Square,
}

/// The compression of a sound's samples.
#[derive(Debug, PartialEq, Eq, Structural, Clone, Copy)]
pub enum AudioCompression {
    UncompressedUnknownEndian,
    Adpcm,
    Mp3,
    Uncompressed,
    Nellymoser16Khz,
    Nellymoser8Khz,
    Nellymoser,
    Speex,
}

/// The sample format of a sound.
#[derive(Debug, PartialEq, Eq, Structural, Clone)]
pub struct SoundFormat {
    pub compression: AudioCompression,
    pub sample_rate: u16,
    pub is_stereo: bool,
    pub is_16_bit: bool,
}

/// The head of a streaming sound.
#[derive(Debug, PartialEq, Eq, Structural, Clone)]
pub struct SoundStreamHead {
    pub stream_format: SoundFormat,
    pub playback_format: SoundFormat,
    pub num_samples_per_block: u16,
    pub latency_seek: i16,
}

/// The button state transition a handler fires on: idle to hover.
pub const BUTTON_COND_IDLE_TO_OVER_UP: u16 = 1;

/// The button state transition a handler fires on: hover to idle.
pub const BUTTON_COND_OVER_UP_TO_IDLE: u16 = 2;

/// The button state transition a handler fires on: press.
pub const BUTTON_COND_OVER_UP_TO_OVER_DOWN: u16 = 4;

/// The button state transition a handler fires on: release.
pub const BUTTON_COND_OVER_DOWN_TO_OVER_UP: u16 = 8;

/// The button state transition a handler fires on: a key press.
pub const BUTTON_COND_KEY_PRESS: u16 = 512;

/// The transition set a button handler is attached to, as the format's
/// packed flag bits.
#[derive(Debug, PartialEq, Eq, Structural, Clone, Copy)]
pub struct ButtonActionCondition {
    pub bits: u16,
}

impl ButtonActionCondition {
    /// True when every bit of `flag` is set.
    pub fn contains(&self, flag: u16) -> (r: bool)
        ensures
            r == (self.bits & flag == flag),
    {
        self.bits & flag == flag
    }
}

/// A handler attached to a button.
#[derive(Debug, Clone)]
pub struct ButtonAction {
    pub conditions: ButtonActionCondition,
    pub key_code: Option<u8>,
    pub action_data: Vec<u8>,
}

/// An embedded font, by its raw data.
#[derive(Debug, Clone)]
pub struct Font4 {
    pub id: CharacterId,
    pub is_italic: bool,
    pub is_bold: bool,
    pub name: String,
    pub data: Option<Vec<u8>>,
}

/// The metrics of a font.
#[derive(Debug, Clone)]
pub struct FontLayout {
    pub ascent: u16,
    pub descent: u16,
    pub leading: i16,
    pub kerning: Vec<KerningRecord>,
}

/// One kerning adjustment between a pair of glyphs.
#[derive(Debug, PartialEq, Eq, Structural, Clone)]
pub struct KerningRecord {
    pub left_code: u16,
    pub right_code: u16,
    pub adjustment: Twips,
}

/// The descriptive record of a font.
#[derive(Debug, Clone)]
pub struct FontInfo {
    pub id: CharacterId,
    pub version: u8,
    pub name: String,
    pub is_small_text: bool,
    pub is_shift_jis: bool,
    pub is_ansi: bool,
    pub is_bold: bool,
    pub is_italic: bool,
    pub language: Language,
    pub code_table: Vec<u16>,
}

/// A static text block.
#[derive(Debug, Clone)]
pub struct Text {
    pub id: CharacterId,
    pub bounds: Rectangle,
    pub matrix: Matrix,
    pub records: Vec<TextRecord>,
}

/// One styled run of a static text block.
#[derive(Debug, Clone)]
pub struct TextRecord {
    pub font_id: Option<CharacterId>,
    pub color: Option<Color>,
    pub x_offset: Option<Twips>,
    pub y_offset: Option<Twips>,
    pub height: Option<Twips>,
    pub glyphs: Vec<GlyphEntry>,
}

/// One glyph of a text run, by index and advance.
#[derive(Debug, PartialEq, Eq, Structural, Clone)]
pub struct GlyphEntry {
    pub index: u32,
    pub advance: i32,
}

/// An editable text field.
#[derive(Debug, Clone)]
pub struct EditText {
    pub id: CharacterId,
    pub bounds: Rectangle,
    pub font_id: Option<CharacterId>,
    pub font_class_name: Option<String>,
    pub height: Option<Twips>,
    pub color: Option<Color>,
    pub max_length: Option<u16>,
    pub layout: Option<TextLayout>,
    pub variable_name: String,
    pub initial_text: Option<String>,
    pub is_word_wrap: bool,
    pub is_multiline: bool,
    pub is_password: bool,
    pub is_read_only: bool,
    pub is_auto_size: bool,
    pub is_selectable: bool,
    pub has_border: bool,
    pub was_static: bool,
    pub is_html: bool,
    pub is_device_font: bool,
}

/// The paragraph layout of an editable text field.
#[derive(Debug, PartialEq, Eq, Structural, Clone)]
pub struct TextLayout {
    pub align: TextAlign,
    pub left_margin: Twips,
    pub right_margin: Twips,
    pub indent: Twips,
    pub leading: Twips,
}

/// The horizontal alignment of text.
#[derive(Clone, Copy, Debug, PartialEq, Eq, Structural)]
pub enum TextAlign {
    Left,
    Center,
    Right,
    Justify,
}

/// One hinting zone of an aligned font.
#[derive(Debug, PartialEq, Eq, Structural, Clone)]
pub struct FontAlignZone {
    pub left: i16,
    pub width: i16,
    pub bottom: i16,
    pub height: i16,
}

/// The stroke thickness class of an aligned font.
#[derive(Clone, Copy, Debug, PartialEq, Eq, Structural)]
pub enum FontThickness {
    Thin,
    Medium,
    Thick,
}

/// How text glyphs snap to the pixel grid.
#[derive(Clone, Copy, Debug, PartialEq, Eq, Structural)]
pub enum TextGridFit {
    Off,
    Pixel,
    SubPixel,
}

/// A losslessly compressed bitmap.
#[derive(Debug, Clone)]
pub struct DefineBitsLossless {
    pub version: u8,
    pub id: CharacterId,
    pub format: BitmapFormat,
    pub width: u16,
    pub height: u16,
    pub num_colors: u8,
    pub data: Vec<u8>,
}

/// The pixel format of a lossless bitmap.
#[derive(Clone, Copy, Debug, PartialEq, Eq, Structural)]
pub enum BitmapFormat {
    ColorMap8,
    Rgb15,
    Rgb32,
}

/// A defined video stream.
#[derive(Debug, PartialEq, Eq, Structural, Clone)]
pub struct DefineVideoStream {
    pub id: CharacterId,
    pub num_frames: u16,
    pub width: u16,
    pub height: u16,
    pub is_smoothed: bool,
    pub deblocking: VideoDeblocking,
    pub codec: VideoCodec,
}

/// The deblocking mode of a video stream.
#[derive(Clone, Copy, Debug, PartialEq, Eq, Structural)]
pub enum VideoDeblocking {
    UseVideoPacketValue,
    Off,
    Level1,
    Level2,
    Level3,
    Level4,
}

/// The codec of a video stream.
#[derive(Clone, Copy, Debug, PartialEq, Eq, Structural)]
pub enum VideoCodec {
    H263,
    ScreenVideo,
    Vp6,
    Vp6WithAlpha,
    ScreenVideoV2,
}

/// One frame of a video stream.
#[derive(Debug, Clone)]
pub struct VideoFrame {
    pub stream_id: CharacterId,
    pub frame_num: u16,
    pub data: Vec<u8>,
}

/// A block of bytecode and its initialization mode.
#[derive(Debug, Clone)]
pub struct DoAbc {
    pub name: String,
    pub is_lazy_initialize: bool,
    pub data: Vec<u8>,
}

/// The record of the software that generated the file.
#[derive(Clone, Debug, PartialEq, Eq, Structural)]
pub struct ProductInfo {
    pub product_id: u32,
    pub edition: u32,
    pub major_version: u8,
    pub minor_version: u8,
    pub build_number: u64,
    pub compilation_date: u64,
}

} // verus!
