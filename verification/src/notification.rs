//! The toast notification data model and its XML builder: every value
//! description is mapped to attributes and elements of the toast schema,
//! with the schema's validation, clamping and default-omission rules.

use crate::xml::{
    spec_attr_value, spec_count_named, spec_u32_str, spec_xml, u32_to_string, with_child, SpecElem,
    XmlElem,
};
use vstd::prelude::*;

verus! {

/// How long the notification stays on screen.
pub enum Duration {
    Default,
    /// 7 seconds.
    Short,
    /// 25 seconds.
    Long,
}

/// The notification's behavioural category.
pub enum Scenario {
    /// The normal toast behaviour.
    Default,
    /// Stays on screen until dismissed; alarm audio.
    Alarm,
    /// Stays on screen until dismissed.
    Reminder,
    /// Call format; stays on screen until dismissed; ringtone audio.
    IncomingCall,
    /// An important notification that can break through focus assist.
    Urgent,
}

/// The cropping applied to an image.
pub enum HintCrop {
    /// The image is not cropped and displayed as a square.
    Default,
    /// The image is cropped into a circle.
    Circle,
}

/// The size and weight of a text element inside a group.
pub enum TextStyle {
    Default,
    Caption,
    CaptionSubtle,
    Body,
    BodySubtle,
    Base,
    BaseSubtle,
    Subtitle,
    SubtitleSubtle,
    Title,
    TitleSubtle,
    TitleNumeral,
    Subheader,
    SubheaderSubtle,
    SubheaderNumeral,
    Header,
    HeaderSubtle,
    HeaderNumeral,
}

/// Horizontal alignment of a text element inside a group.
pub enum TextAlign {
    /// Alignment is determined by the renderer.
    Default,
    /// Alignment determined by the current language and culture.
    Auto,
    Left,
    Center,
    Right,
}

/// Horizontal alignment of an image inside a group.
pub enum ImageAlign {
    /// Alignment behaviour determined by the renderer.
    Default,
    /// The image stretches to fill the available width.
    Stretch,
    Left,
    Center,
    Right,
}

/// One element of a subgroup: styled text or an image.
pub enum SubgroupElement {
    Text_(InnerText),
    Image_(Image),
}

/// The platform sound played with the notification. The first five
/// categories never loop; the alarm and call categories may.
pub enum SoundSrc {
    Default,
    IM,
    Mail,
    Reminder,
    SMS,
    Alarm,
    Alarm2,
    Alarm3,
    Alarm4,
    Alarm5,
    Alarm6,
    Alarm7,
    Alarm8,
    Alarm9,
    Alarm10,
    Call,
    Call2,
    Call3,
    Call4,
    Call5,
    Call6,
    Call7,
    Call8,
    Call9,
    Call10,
}

/// A styled text element used inside a subgroup.
pub struct InnerText {
    pub text: String,
    pub hint_style: TextStyle,
    /// Only an explicit `true` is ever written to the document.
    pub hint_warp: Option<bool>,
    pub hint_max_lines: Option<u32>,
    pub hint_min_lines: Option<u32>,
    pub hint_align: TextAlign,
}

/// An image element. The source URI is required; an empty source is a
/// validation error.
pub struct Image {
    /// The URI of the image source; must not be empty.
    pub src: String,
    /// A description for assistive technologies; omitted when empty.
    pub alt: String,
    /// The cropping of the image.
    pub hint_crop: HintCrop,
    /// Only honoured for images inside a group's subgroup.
    pub hint_align: ImageAlign,
}

/// One child of a binding: plain text, a group of subgroups, or an image.
pub enum BindingInnerElement {
    Text(String),
    Group(Vec<Vec<SubgroupElement>>),
    Image(Image),
}

/// The kind of an input element.
pub enum InputType {
    /// Free text, with an optional default value.
    Text(Option<String>),
    /// A selection list: an optional default-selected id and the
    /// (id, title) pairs offered; at most five pairs are rendered.
    Selection(Option<String>, Vec<(String, String)>),
}

/// A text or selection input shown on the notification.
pub struct Input {
    /// The id associated with the input.
    pub id: String,
    /// The kind of input.
    pub type_: InputType,
    /// The placeholder displayed for text input.
    pub place_holder_content: Option<String>,
    /// Text displayed as a label for the input.
    pub title: Option<String>,
}

/// What happens when the user interacts with an action button.
pub enum ActivationType {
    /// The foreground app is launched.
    Foreground,
    /// The corresponding background task is triggered.
    Background,
    /// A different app is launched through protocol activation.
    Protocol,
}

/// Where an action appears.
pub enum ActionPlacement {
    Default,
    /// The action becomes a context-menu entry instead of a button.
    ContextMenu,
}

/// An action button.
pub struct Action {
    /// The content displayed on the button.
    pub content: String,
    /// App-defined arguments handed back when the button is clicked.
    pub arguments: String,
    /// The type of activation used when the user interacts with the action.
    pub activation_type: ActivationType,
    /// A context-menu placement overrides the activation type attribute.
    pub placement: ActionPlacement,
    /// The URI of the button's icon.
    pub image_uri: Option<String>,
    /// The id of an input to position the button beside.
    pub hint_input_id: Option<String>,
    /// The button style; only the exact strings `"Success"` and
    /// `"Critical"` are honoured, anything else is silently dropped.
    pub hint_button_style: Option<String>,
    /// The tooltip for a button with an empty content string.
    pub hint_tool_tip: Option<String>,
}

/// One entry of the actions area: a button or an input.
pub enum ActionsElem {
    Action_(Action),
    Input_(Input),
}

/// One binding: the visual content of the notification.
pub struct BindingElem {
    pub icon: Option<Image>,
    pub hero: Option<Image>,
    /// The title text and its optional maximum line count.
    pub title: (String, Option<u32>),
    pub elems: Vec<BindingInnerElement>,
}

/// A complete notification description.
pub struct Toast {
    pub app_id: String,
    pub binding_elems: Vec<BindingElem>,
    pub duration: Duration,
    pub scenario: Scenario,
    /// Loop flag, silent flag and sound source.
    pub audio: Option<(bool, bool, SoundSrc)>,
    pub actions: Vec<ActionsElem>,
    pub use_btn_style: bool,
    pub display_timestamp: Option<String>,
}

/// The one hard failure a build can report: a required image source was
/// empty.
#[derive(Clone, Copy, PartialEq, Eq, Structural, Debug)]
pub enum ValidationError {
    EmptyImageSrc,
}

/// `"true"` or `"false"`, as written into boolean attributes.
pub open spec fn spec_bool_str(b: bool) -> Seq<char> {
    if b {
        "true"@
    } else {
        "false"@
    }
}

fn bool_str(b: bool) -> (r: &'static str)
    ensures
        r@ == spec_bool_str(b),
{
    if b {
        "true"
    } else {
        "false"
    }
}

/// An attribute list of one entry when the condition holds, else empty.
pub open spec fn opt_attr(cond: bool, name: Seq<char>, value: Seq<char>) -> Seq<
    (Seq<char>, Seq<char>),
> {
    if cond {
        seq![(name, value)]
    } else {
        Seq::empty()
    }
}

/// The attribute entry for an optional string value.
pub open spec fn spec_opt_str_attr(o: Option<String>, name: Seq<char>) -> Seq<
    (Seq<char>, Seq<char>),
> {
    match o {
        Some(s) => seq![(name, s@)],
        None => Seq::empty(),
    }
}

/// The attribute entry for an optional numeric value.
pub open spec fn spec_opt_u32_attr(o: Option<u32>, name: Seq<char>) -> Seq<
    (Seq<char>, Seq<char>),
> {
    match o {
        Some(v) => seq![(name, spec_u32_str(v as nat))],
        None => Seq::empty(),
    }
}

/// The `hint-style` attribute entry for a text style; empty for the
/// default style.
pub open spec fn spec_style_attr(s: TextStyle) -> Seq<(Seq<char>, Seq<char>)> {
    match s {
        TextStyle::Default => Seq::empty(),
        TextStyle::Caption => seq![("hint-style"@, "caption"@)],
        TextStyle::CaptionSubtle => seq![("hint-style"@, "captionSubtle"@)],
        TextStyle::Body => seq![("hint-style"@, "body"@)],
        TextStyle::BodySubtle => seq![("hint-style"@, "bodySubtle"@)],
        TextStyle::Base => seq![("hint-style"@, "base"@)],
        TextStyle::BaseSubtle => seq![("hint-style"@, "baseSubtle"@)],
        TextStyle::Subtitle => seq![("hint-style"@, "subtitle"@)],
        TextStyle::SubtitleSubtle => seq![("hint-style"@, "subtitleSubtle"@)],
        TextStyle::Title => seq![("hint-style"@, "title"@)],
        TextStyle::TitleSubtle => seq![("hint-style"@, "titleSubtle"@)],
        TextStyle::TitleNumeral => seq![("hint-style"@, "titleNumeral"@)],
        TextStyle::Subheader => seq![("hint-style"@, "subheader"@)],
        TextStyle::SubheaderSubtle => seq![("hint-style"@, "subheaderSubtle"@)],
        TextStyle::SubheaderNumeral => seq![("hint-style"@, "subheaderNumeral"@)],
        TextStyle::Header => seq![("hint-style"@, "header"@)],
        TextStyle::HeaderSubtle => seq![("hint-style"@, "headerSubtle"@)],
        TextStyle::HeaderNumeral => seq![("hint-style"@, "headerNumeral"@)],
    }
}

fn style_attr_str(s: &TextStyle) -> (r: Option<&'static str>)
    ensures
        match r {
            Some(v) => spec_style_attr(*s) == seq![("hint-style"@, v@)],
            None => spec_style_attr(*s) == Seq::<(Seq<char>, Seq<char>)>::empty(),
        },
{
    match s {
        TextStyle::Default => None,
        TextStyle::Caption => Some("caption"),
        TextStyle::CaptionSubtle => Some("captionSubtle"),
        TextStyle::Body => Some("body"),
        TextStyle::BodySubtle => Some("bodySubtle"),
        TextStyle::Base => Some("base"),
        TextStyle::BaseSubtle => Some("baseSubtle"),
        TextStyle::Subtitle => Some("subtitle"),
        TextStyle::SubtitleSubtle => Some("subtitleSubtle"),
        TextStyle::Title => Some("title"),
        TextStyle::TitleSubtle => Some("titleSubtle"),
        TextStyle::TitleNumeral => Some("titleNumeral"),
        TextStyle::Subheader => Some("subheader"),
        TextStyle::SubheaderSubtle => Some("subheaderSubtle"),
        TextStyle::SubheaderNumeral => Some("subheaderNumeral"),
        TextStyle::Header => Some("header"),
        TextStyle::HeaderSubtle => Some("headerSubtle"),
        TextStyle::HeaderNumeral => Some("headerNumeral"),
    }
}

/// The `hint-align` attribute entry for a text alignment; empty for the
/// default alignment.
pub open spec fn spec_text_align_attr(a: TextAlign) -> Seq<(Seq<char>, Seq<char>)> {
    match a {
        TextAlign::Default => Seq::empty(),
        TextAlign::Auto => seq![("hint-align"@, "auto"@)],
        TextAlign::Left => seq![("hint-align"@, "left"@)],
        TextAlign::Center => seq![("hint-align"@, "center"@)],
        TextAlign::Right => seq![("hint-align"@, "right"@)],
    }
}

fn text_align_attr_str(a: &TextAlign) -> (r: Option<&'static str>)
    ensures
        match r {
            Some(v) => spec_text_align_attr(*a) == seq![("hint-align"@, v@)],
            None => spec_text_align_attr(*a) == Seq::<(Seq<char>, Seq<char>)>::empty(),
        },
{
    match a {
        TextAlign::Default => None,
        TextAlign::Auto => Some("auto"),
        TextAlign::Left => Some("left"),
        TextAlign::Center => Some("center"),
        TextAlign::Right => Some("right"),
    }
}

/// The `hint-align` attribute entry for an image alignment; empty for the
/// default alignment.
pub open spec fn spec_image_align_attr(a: ImageAlign) -> Seq<(Seq<char>, Seq<char>)> {
    match a {
        ImageAlign::Default => Seq::empty(),
        ImageAlign::Stretch => seq![("hint-align"@, "stretch"@)],
        ImageAlign::Left => seq![("hint-align"@, "left"@)],
        ImageAlign::Center => seq![("hint-align"@, "center"@)],
        ImageAlign::Right => seq![("hint-align"@, "right"@)],
    }
}

fn image_align_attr_str(a: &ImageAlign) -> (r: Option<&'static str>)
    ensures
        match r {
            Some(v) => spec_image_align_attr(*a) == seq![("hint-align"@, v@)],
            None => spec_image_align_attr(*a) == Seq::<(Seq<char>, Seq<char>)>::empty(),
        },
{
    match a {
        ImageAlign::Default => None,
        ImageAlign::Stretch => Some("stretch"),
        ImageAlign::Left => Some("left"),
        ImageAlign::Center => Some("center"),
        ImageAlign::Right => Some("right"),
    }
}

/// The literal written for an activation type.
pub open spec fn spec_activation_str(a: ActivationType) -> Seq<char> {
    match a {
        ActivationType::Foreground => "foreground"@,
        ActivationType::Background => "background"@,
        ActivationType::Protocol => "protocol"@,
    }
}

fn activation_str(a: &ActivationType) -> (r: &'static str)
    ensures
        r@ == spec_activation_str(*a),
{
    match a {
        ActivationType::Foreground => "foreground",
        ActivationType::Background => "background",
        ActivationType::Protocol => "protocol",
    }
}

/// Whether the sound source belongs to the looping categories.
pub open spec fn spec_sound_loops(s: SoundSrc) -> bool {
    match s {
        SoundSrc::Default => false,
        SoundSrc::IM => false,
        SoundSrc::Mail => false,
        SoundSrc::Reminder => false,
        SoundSrc::SMS => false,
        _ => true,
    }
}

fn sound_loops(s: &SoundSrc) -> (r: bool)
    ensures
        r == spec_sound_loops(*s),
{
    match s {
        SoundSrc::Default => false,
        SoundSrc::IM => false,
        SoundSrc::Mail => false,
        SoundSrc::Reminder => false,
        SoundSrc::SMS => false,
        _ => true,
    }
}

/// The platform sound-event URI for a sound source.
pub open spec fn spec_sound_uri(s: SoundSrc) -> Seq<char> {
    match s {
        SoundSrc::Default => "ms-winsoundevent:Notification.Default"@,
        SoundSrc::IM => "ms-winsoundevent:Notification.IM"@,
        SoundSrc::Mail => "ms-winsoundevent:Notification.Mail"@,
        SoundSrc::Reminder => "ms-winsoundevent:Notification.Reminder"@,
        SoundSrc::SMS => "ms-winsoundevent:Notification.SMS"@,
        SoundSrc::Alarm => "ms-winsoundevent:Notification.Looping.Alarm"@,
        SoundSrc::Alarm2 => "ms-winsoundevent:Notification.Looping.Alarm2"@,
        SoundSrc::Alarm3 => "ms-winsoundevent:Notification.Looping.Alarm3"@,
        SoundSrc::Alarm4 => "ms-winsoundevent:Notification.Looping.Alarm4"@,
        SoundSrc::Alarm5 => "ms-winsoundevent:Notification.Looping.Alarm5"@,
        SoundSrc::Alarm6 => "ms-winsoundevent:Notification.Looping.Alarm6"@,
        SoundSrc::Alarm7 => "ms-winsoundevent:Notification.Looping.Alarm7"@,
        SoundSrc::Alarm8 => "ms-winsoundevent:Notification.Looping.Alarm8"@,
        SoundSrc::Alarm9 => "ms-winsoundevent:Notification.Looping.Alarm9"@,
        SoundSrc::Alarm10 => "ms-winsoundevent:Notification.Looping.Alarm10"@,
        SoundSrc::Call => "ms-winsoundevent:Notification.Looping.Call"@,
        SoundSrc::Call2 => "ms-winsoundevent:Notification.Looping.Call2"@,
        SoundSrc::Call3 => "ms-winsoundevent:Notification.Looping.Call3"@,
        SoundSrc::Call4 => "ms-winsoundevent:Notification.Looping.Call4"@,
        SoundSrc::Call5 => "ms-winsoundevent:Notification.Looping.Call5"@,
        SoundSrc::Call6 => "ms-winsoundevent:Notification.Looping.Call6"@,
        SoundSrc::Call7 => "ms-winsoundevent:Notification.Looping.Call7"@,
        SoundSrc::Call8 => "ms-winsoundevent:Notification.Looping.Call8"@,
        SoundSrc::Call9 => "ms-winsoundevent:Notification.Looping.Call9"@,
        SoundSrc::Call10 => "ms-winsoundevent:Notification.Looping.Call10"@,
    }
}

fn sound_uri(s: &SoundSrc) -> (r: &'static str)
    ensures
        r@ == spec_sound_uri(*s),
{
    match s {
        SoundSrc::Default => "ms-winsoundevent:Notification.Default",
        SoundSrc::IM => "ms-winsoundevent:Notification.IM",
        SoundSrc::Mail => "ms-winsoundevent:Notification.Mail",
        SoundSrc::Reminder => "ms-winsoundevent:Notification.Reminder",
        SoundSrc::SMS => "ms-winsoundevent:Notification.SMS",
        SoundSrc::Alarm => "ms-winsoundevent:Notification.Looping.Alarm",
        SoundSrc::Alarm2 => "ms-winsoundevent:Notification.Looping.Alarm2",
        SoundSrc::Alarm3 => "ms-winsoundevent:Notification.Looping.Alarm3",
        SoundSrc::Alarm4 => "ms-winsoundevent:Notification.Looping.Alarm4",
        SoundSrc::Alarm5 => "ms-winsoundevent:Notification.Looping.Alarm5",
        SoundSrc::Alarm6 => "ms-winsoundevent:Notification.Looping.Alarm6",
        SoundSrc::Alarm7 => "ms-winsoundevent:Notification.Looping.Alarm7",
        SoundSrc::Alarm8 => "ms-winsoundevent:Notification.Looping.Alarm8",
        SoundSrc::Alarm9 => "ms-winsoundevent:Notification.Looping.Alarm9",
        SoundSrc::Alarm10 => "ms-winsoundevent:Notification.Looping.Alarm10",
        SoundSrc::Call => "ms-winsoundevent:Notification.Looping.Call",
        SoundSrc::Call2 => "ms-winsoundevent:Notification.Looping.Call2",
        SoundSrc::Call3 => "ms-winsoundevent:Notification.Looping.Call3",
        SoundSrc::Call4 => "ms-winsoundevent:Notification.Looping.Call4",
        SoundSrc::Call5 => "ms-winsoundevent:Notification.Looping.Call5",
        SoundSrc::Call6 => "ms-winsoundevent:Notification.Looping.Call6",
        SoundSrc::Call7 => "ms-winsoundevent:Notification.Looping.Call7",
        SoundSrc::Call8 => "ms-winsoundevent:Notification.Looping.Call8",
        SoundSrc::Call9 => "ms-winsoundevent:Notification.Looping.Call9",
        SoundSrc::Call10 => "ms-winsoundevent:Notification.Looping.Call10",
    }
}

/// An image is valid exactly when its source URI is non-empty.
pub open spec fn spec_image_ok(img: Image) -> bool {
    img.src@.len() > 0
}

/// The attribute list of an image element: `src` always; `placement` when
/// one is given; `alt` when non-empty; the crop for the circle variant; the
/// alignment only inside a group and only when not the default.
pub open spec fn spec_image_attrs(img: Image, placement: Seq<char>, in_group: bool) -> Seq<
    (Seq<char>, Seq<char>),
> {
    seq![("src"@, img.src@)] + opt_attr(placement.len() > 0, "placement"@, placement) + opt_attr(
        img.alt@.len() > 0,
        "alt"@,
        img.alt@,
    ) + opt_attr(img.hint_crop is Circle, "hint-crop"@, "circle"@) + (if in_group {
        spec_image_align_attr(img.hint_align)
    } else {
        Seq::empty()
    })
}

/// The image element built for a valid image.
pub open spec fn spec_image_elem(img: Image, placement: Seq<char>, in_group: bool) -> SpecElem {
    SpecElem {
        name: "image"@,
        attrs: spec_image_attrs(img, placement, in_group),
        text: Seq::empty(),
        children: Seq::empty(),
    }
}

/// Appends an image element to `parent`, with an explicit placement
/// attribute when `placement` is non-empty, and with the alignment hint
/// honoured only when `in_group` holds. Fails exactly when the image's
/// source URI is empty, and then leaves `parent` unchanged.
pub fn add_image_elem_with_placement(
    image: &Image,
    parent: &mut XmlElem,
    placement: &str,
    in_group: bool,
) -> (r: Result<(), ValidationError>)
    ensures
        spec_image_ok(*image) ==> r is Ok && final(parent)@ == with_child(
            old(parent)@,
            spec_image_elem(*image, placement@, in_group),
        ),
        !spec_image_ok(*image) ==> r == Err::<(), ValidationError>(ValidationError::EmptyImageSrc)
            && *final(parent) == *old(parent),
{
    if image.src.as_str().is_empty() {
        return Err(ValidationError::EmptyImageSrc);
    }
    let mut e = XmlElem::new_elem("image");
    e.push_attr("src", image.src.as_str());
    if !placement.is_empty() {
        e.push_attr("placement", placement);
    }
    if !image.alt.as_str().is_empty() {
        e.push_attr("alt", image.alt.as_str());
    }
    if matches!(image.hint_crop, HintCrop::Circle) {
        e.push_attr("hint-crop", "circle");
    }
    if in_group {
        if let Some(v) = image_align_attr_str(&image.hint_align) {
            e.push_attr("hint-align", v);
        }
    }
    proof {
        assert(e@.attrs =~~= spec_image_attrs(*image, placement@, in_group));
        assert(e@ =~~= spec_image_elem(*image, placement@, in_group));
    }
    parent.push_child(e);
    Ok(())
}

/// Appends an image element without an explicit placement, with the
/// in-group alignment honoured; fails exactly when the source is empty.
pub fn add_image_elem(image: &Image, parent: &mut XmlElem) -> (r: Result<(), ValidationError>)
    ensures
        spec_image_ok(*image) ==> r is Ok && final(parent)@ == with_child(
            old(parent)@,
            spec_image_elem(*image, Seq::empty(), true),
        ),
        !spec_image_ok(*image) ==> r == Err::<(), ValidationError>(ValidationError::EmptyImageSrc)
            && *final(parent) == *old(parent),
{
    let r = add_image_elem_with_placement(image, parent, "", true);
    proof {
        reveal_strlit("");
        assert(""@ =~= Seq::<char>::empty());
    }
    r
}

/// The attribute list of a styled text element, in output order: the line
/// hints when present, the wrap hint only when explicitly true, then the
/// non-default style and alignment.
pub open spec fn spec_text_attrs(t: InnerText) -> Seq<(Seq<char>, Seq<char>)> {
    spec_opt_u32_attr(t.hint_max_lines, "hint-maxLines"@) + spec_opt_u32_attr(
        t.hint_min_lines,
        "hint-minLines"@,
    ) + opt_attr(t.hint_warp == Some(true), "hint-warp"@, "true"@) + spec_style_attr(t.hint_style)
        + spec_text_align_attr(t.hint_align)
}

/// The element built for a styled text entry of a subgroup.
pub open spec fn spec_text_elem(t: InnerText) -> SpecElem {
    SpecElem {
        name: "text"@,
        attrs: spec_text_attrs(t),
        text: t.text@,
        children: Seq::empty(),
    }
}

/// Appends a styled text element to `parent`. Never fails.
pub fn add_in_group_text_elem(text: &InnerText, parent: &mut XmlElem)
    ensures
        final(parent)@ == with_child(old(parent)@, spec_text_elem(*text)),
{
    let mut e = XmlElem::new_elem("text");
    if let Some(value) = &text.hint_max_lines {
        let s = u32_to_string(*value);
        e.push_attr("hint-maxLines", s.as_str());
    }
    if let Some(value) = &text.hint_min_lines {
        let s = u32_to_string(*value);
        e.push_attr("hint-minLines", s.as_str());
    }
    if let Some(value) = &text.hint_warp {
        if *value {
            e.push_attr("hint-warp", "true");
        }
    }
    if let Some(v) = style_attr_str(&text.hint_style) {
        e.push_attr("hint-style", v);
    }
    if let Some(v) = text_align_attr_str(&text.hint_align) {
        e.push_attr("hint-align", v);
    }
    e.set_text(text.text.as_str());
    proof {
        assert(e@.attrs =~~= spec_text_attrs(*text));
        assert(e@ =~~= spec_text_elem(*text));
    }
    parent.push_child(e);
}

/// The audio element: `loop` is the caller's flag for looping categories
/// and the literal `false` otherwise; `silent` is always written; `src` is
/// the category's sound-event URI.
pub open spec fn spec_audio_elem(loops: bool, silent: bool, src: SoundSrc) -> SpecElem {
    SpecElem {
        name: "audio"@,
        attrs: seq![
            ("loop"@, spec_bool_str(loops && spec_sound_loops(src))),
            ("silent"@, spec_bool_str(silent)),
            ("src"@, spec_sound_uri(src)),
        ],
        text: Seq::empty(),
        children: Seq::empty(),
    }
}

/// Appends the audio element when an audio specification is present;
/// appends nothing otherwise. Never fails.
pub fn add_audio(audio: &Option<(bool, bool, SoundSrc)>, parent: &mut XmlElem)
    ensures
        match *audio {
            Some((loops, silent, src)) => final(parent)@ == with_child(
                old(parent)@,
                spec_audio_elem(loops, silent, src),
            ),
            None => *final(parent) == *old(parent),
        },
{
    if let Some((loops, silent, src)) = audio {
        let mut e = XmlElem::new_elem("audio");
        let loop_value = *loops && sound_loops(src);
        e.push_attr("loop", bool_str(loop_value));
        e.push_attr("silent", bool_str(*silent));
        e.push_attr("src", sound_uri(src));
        proof {
            assert(e@.attrs =~~= spec_audio_elem(*loops, *silent, *src).attrs);
            assert(e@ =~~= spec_audio_elem(*loops, *silent, *src));
        }
        parent.push_child(e);
    }
}

/// Whether one subgroup entry passes validation.
pub open spec fn spec_subgroup_item_ok(e: SubgroupElement) -> bool {
    match e {
        SubgroupElement::Text_(_) => true,
        SubgroupElement::Image_(img) => spec_image_ok(img),
    }
}

/// The element one subgroup entry becomes.
pub open spec fn spec_subgroup_item(e: SubgroupElement) -> SpecElem {
    match e {
        SubgroupElement::Text_(t) => spec_text_elem(t),
        SubgroupElement::Image_(img) => spec_image_elem(img, Seq::empty(), true),
    }
}

/// Whether every entry of a subgroup passes validation.
pub open spec fn spec_subgroup_ok(sg: Seq<SubgroupElement>) -> bool {
    forall|i: int| 0 <= i < sg.len() ==> spec_subgroup_item_ok(#[trigger] sg[i])
}

/// The subgroup element: its entries in order, no attributes.
pub open spec fn spec_subgroup_elem(sg: Seq<SubgroupElement>) -> SpecElem {
    SpecElem {
        name: "subgroup"@,
        attrs: Seq::empty(),
        text: Seq::empty(),
        children: sg.map_values(|e: SubgroupElement| spec_subgroup_item(e)),
    }
}

fn add_subgroup(subgroup_elems: &Vec<SubgroupElement>, parent: &mut XmlElem) -> (r: Result<
    (),
    ValidationError,
>)
    ensures
        spec_subgroup_ok(subgroup_elems@) ==> r is Ok && final(parent)@ == with_child(
            old(parent)@,
            spec_subgroup_elem(subgroup_elems@),
        ),
        !spec_subgroup_ok(subgroup_elems@) ==> r == Err::<(), ValidationError>(
            ValidationError::EmptyImageSrc,
        ) && *final(parent) == *old(parent),
{
    let ghost sv = subgroup_elems@;
    let mut e = XmlElem::new_elem("subgroup");
    proof {
        assert(e@.children =~~= sv.take(0).map_values(|x: SubgroupElement| spec_subgroup_item(x)));
    }
    for i in 0..subgroup_elems.len()
        invariant
            sv == subgroup_elems@,
            forall|j: int| 0 <= j < i ==> spec_subgroup_item_ok(#[trigger] sv[j]),
            e@.name == "subgroup"@,
            e@.attrs == Seq::<(Seq<char>, Seq<char>)>::empty(),
            e@.text == Seq::<char>::empty(),
            e@.children == sv.take(i as int).map_values(
                |x: SubgroupElement| spec_subgroup_item(x),
            ),
    {
        match &subgroup_elems[i] {
            SubgroupElement::Text_(t) => {
                add_in_group_text_elem(t, &mut e);
            },
            SubgroupElement::Image_(img) => {
                match add_image_elem(img, &mut e) {
                    Ok(()) => {},
                    Err(err) => {
                        proof {
                            assert(!spec_subgroup_item_ok(sv[i as int]));
                            assert(!spec_subgroup_ok(sv));
                        }
                        return Err(err);
                    },
                }
            },
        }
        proof {
            assert(e@.children =~~= sv.take(i + 1).map_values(
                |x: SubgroupElement| spec_subgroup_item(x),
            ));
        }
    }
    proof {
        assert(sv.take(sv.len() as int) =~= sv);
        assert(e@ =~~= spec_subgroup_elem(sv));
    }
    parent.push_child(e);
    Ok(())
}

/// The subgroups that survive the filter: those with at least one entry.
pub open spec fn spec_group_kept(gs: Seq<Seq<SubgroupElement>>) -> Seq<Seq<SubgroupElement>>
    decreases gs.len(),
{
    if gs.len() == 0 {
        Seq::empty()
    } else {
        spec_group_kept(gs.drop_last()) + if gs.last().len() > 0 {
            seq![gs.last()]
        } else {
            Seq::empty()
        }
    }
}

/// A group element is appended only when a non-empty subgroup survives the
/// filter.
pub open spec fn spec_group_emitted(gs: Seq<Seq<SubgroupElement>>) -> bool {
    spec_group_kept(gs).len() > 0
}

/// A group passes validation when every non-empty subgroup does; empty
/// subgroups are dropped before anything in them is looked at.
pub open spec fn spec_group_ok(gs: Seq<Seq<SubgroupElement>>) -> bool {
    forall|i: int| 0 <= i < gs.len() && #[trigger] gs[i].len() > 0 ==> spec_subgroup_ok(gs[i])
}

/// The group element: one child per surviving subgroup, in order.
pub open spec fn spec_group_elem(gs: Seq<Seq<SubgroupElement>>) -> SpecElem {
    SpecElem {
        name: "group"@,
        attrs: Seq::empty(),
        text: Seq::empty(),
        children: spec_group_kept(gs).map_values(|sg: Seq<SubgroupElement>| spec_subgroup_elem(sg)),
    }
}

/// The mathematical view of a group: each subgroup as a sequence.
pub open spec fn spec_group_view(g: Seq<Vec<SubgroupElement>>) -> Seq<Seq<SubgroupElement>> {
    g.map_values(|sg: Vec<SubgroupElement>| sg@)
}

/// Appends a group element holding the group's non-empty subgroups, or
/// nothing when every subgroup is empty. Fails exactly when an image inside
/// a surviving subgroup has an empty source, and then leaves `parent`
/// unchanged.
pub fn add_group(group_elems: &Vec<Vec<SubgroupElement>>, parent: &mut XmlElem) -> (r: Result<
    (),
    ValidationError,
>)
    ensures
        spec_group_ok(spec_group_view(group_elems@)) ==> r is Ok && final(parent)@ == (
        if spec_group_emitted(spec_group_view(group_elems@)) {
            with_child(old(parent)@, spec_group_elem(spec_group_view(group_elems@)))
        } else {
            old(parent)@
        }),
        !spec_group_ok(spec_group_view(group_elems@)) ==> r == Err::<(), ValidationError>(
            ValidationError::EmptyImageSrc,
        ) && *final(parent) == *old(parent),
{
    let ghost gv = spec_group_view(group_elems@);
    if group_elems.len() == 0 {
        proof {
            assert(spec_group_kept(gv) =~= Seq::<Seq<SubgroupElement>>::empty());
        }
        return Ok(());
    }
    let mut group_e = XmlElem::new_elem("group");
    proof {
        assert(group_e@.children =~~= spec_group_kept(gv.take(0)).map_values(
            |sg: Seq<SubgroupElement>| spec_subgroup_elem(sg),
        ));
    }
    for i in 0..group_elems.len()
        invariant
            gv == spec_group_view(group_elems@),
            gv.len() == group_elems@.len(),
            forall|j: int|
                0 <= j < i && #[trigger] gv[j].len() > 0 ==> spec_subgroup_ok(gv[j]),
            group_e@.name == "group"@,
            group_e@.attrs == Seq::<(Seq<char>, Seq<char>)>::empty(),
            group_e@.text == Seq::<char>::empty(),
            group_e@.children == spec_group_kept(gv.take(i as int)).map_values(
                |sg: Seq<SubgroupElement>| spec_subgroup_elem(sg),
            ),
    {
        proof {
            assert(gv[i as int] == group_elems@[i as int]@);
        }
        if group_elems[i].len() > 0 {
            match add_subgroup(&group_elems[i], &mut group_e) {
                Ok(()) => {},
                Err(err) => {
                    proof {
                        assert(!spec_subgroup_ok(gv[i as int]));
                        assert(!spec_group_ok(gv));
                    }
                    return Err(err);
                },
            }
        }
        proof {
            assert(gv.take(i + 1).drop_last() =~= gv.take(i as int));
            assert(gv.take(i + 1).last() == gv[i as int]);
            assert(group_e@.children =~~= spec_group_kept(gv.take(i + 1)).map_values(
                |sg: Seq<SubgroupElement>| spec_subgroup_elem(sg),
            ));
        }
    }
    proof {
        assert(gv.take(gv.len() as int) =~= gv);
    }
    if group_e.children.len() > 0 {
        proof {
            assert(group_e@ =~~= spec_group_elem(gv));
        }
        parent.push_child(group_e);
    }
    Ok(())
}

/// The `hint-buttonStyle` attribute entry: present only for the exact
/// values `"Success"` and `"Critical"`, anything else is dropped.
pub open spec fn spec_btn_style_attr(o: Option<String>) -> Seq<(Seq<char>, Seq<char>)> {
    match o {
        Some(s) => if s@ == "Success"@ || s@ == "Critical"@ {
            seq![("hint-buttonStyle"@, s@)]
        } else {
            Seq::empty()
        },
        None => Seq::empty(),
    }
}

/// The attribute list of an action element. A context-menu placement
/// forces the activation type attribute to the literal `contextMenu`.
pub open spec fn spec_action_attrs(a: Action) -> Seq<(Seq<char>, Seq<char>)> {
    seq![
        ("content"@, a.content@),
        ("arguments"@, a.arguments@),
        (
            "activationType"@,
            if a.placement is ContextMenu {
                "contextMenu"@
            } else {
                spec_activation_str(a.activation_type)
            },
        ),
    ] + spec_opt_str_attr(a.image_uri, "imageUri"@) + spec_opt_str_attr(
        a.hint_input_id,
        "hint-inputId"@,
    ) + spec_btn_style_attr(a.hint_button_style) + spec_opt_str_attr(
        a.hint_tool_tip,
        "hint-toolTip"@,
    )
}

/// The action element an action button becomes.
pub open spec fn spec_action_elem(a: Action) -> SpecElem {
    SpecElem {
        name: "action"@,
        attrs: spec_action_attrs(a),
        text: Seq::empty(),
        children: Seq::empty(),
    }
}

fn add_action_elem(action: &Action, parent: &mut XmlElem)
    ensures
        final(parent)@ == with_child(old(parent)@, spec_action_elem(*action)),
{
    let mut e = XmlElem::new_elem("action");
    e.push_attr("content", action.content.as_str());
    e.push_attr("arguments", action.arguments.as_str());
    if matches!(action.placement, ActionPlacement::ContextMenu) {
        e.push_attr("activationType", "contextMenu");
    } else {
        e.push_attr("activationType", activation_str(&action.activation_type));
    }
    if let Some(value) = &action.image_uri {
        e.push_attr("imageUri", value.as_str());
    }
    if let Some(value) = &action.hint_input_id {
        e.push_attr("hint-inputId", value.as_str());
    }
    if let Some(value) = &action.hint_button_style {
        let succ = String::from_str("Success");
        let crit = String::from_str("Critical");
        if value.eq(&succ) || value.eq(&crit) {
            e.push_attr("hint-buttonStyle", value.as_str());
        }
    }
    if let Some(value) = &action.hint_tool_tip {
        e.push_attr("hint-toolTip", value.as_str());
    }
    proof {
        assert(e@.attrs =~~= spec_action_attrs(*action));
        assert(e@ =~~= spec_action_elem(*action));
    }
    parent.push_child(e);
}

/// The element one (id, title) selection pair becomes.
pub open spec fn spec_selection_elem(p: (String, String)) -> SpecElem {
    SpecElem {
        name: "selection"@,
        attrs: seq![("id"@, p.0@), ("title"@, p.1@)],
        text: Seq::empty(),
        children: Seq::empty(),
    }
}

/// The attribute list of an input element, in output order: the id, the
/// kind-specific attributes, the kind itself, and the label.
pub open spec fn spec_input_attrs(inp: Input) -> Seq<(Seq<char>, Seq<char>)> {
    seq![("id"@, inp.id@)] + (match inp.type_ {
        InputType::Text(default) => spec_opt_str_attr(inp.place_holder_content, "placeHolderContent"@)
            + spec_opt_str_attr(default, "defaultInput"@) + seq![("type"@, "text"@)],
        InputType::Selection(default_id, _) => spec_opt_str_attr(
            default_id,
            "defaultSelectionBoxItemId"@,
        ) + seq![("type"@, "selection"@)],
    }) + spec_opt_str_attr(inp.title, "title"@)
}

/// The children of an input element: for a selection input, the first five
/// (id, title) pairs, in order; extras are dropped.
pub open spec fn spec_input_children(inp: Input) -> Seq<SpecElem> {
    match inp.type_ {
        InputType::Text(_) => Seq::empty(),
        InputType::Selection(_, sels) => {
            let n = if sels@.len() <= 5 {
                sels@.len() as int
            } else {
                5int
            };
            sels@.take(n).map_values(|p: (String, String)| spec_selection_elem(p))
        },
    }
}

/// The input element an input description becomes.
pub open spec fn spec_input_elem(inp: Input) -> SpecElem {
    SpecElem {
        name: "input"@,
        attrs: spec_input_attrs(inp),
        text: Seq::empty(),
        children: spec_input_children(inp),
    }
}

fn add_input_elem(input: &Input, parent: &mut XmlElem)
    ensures
        final(parent)@ == with_child(old(parent)@, spec_input_elem(*input)),
{
    let mut e = XmlElem::new_elem("input");
    e.push_attr("id", input.id.as_str());
    let type_str: &str = match &input.type_ {
        InputType::Text(default) => {
            if let Some(content) = &input.place_holder_content {
                e.push_attr("placeHolderContent", content.as_str());
            }
            if let Some(value) = default {
                e.push_attr("defaultInput", value.as_str());
            }
            "text"
        },
        InputType::Selection(default_id, selections) => {
            if let Some(value) = default_id {
                e.push_attr("defaultSelectionBoxItemId", value.as_str());
            }
            let ghost attrs_pre = e@.attrs;
            let ghost sels = selections@;
            let m = if selections.len() < 5 {
                selections.len()
            } else {
                5
            };
            proof {
                assert(e@.children =~~= sels.take(0).map_values(
                    |p: (String, String)| spec_selection_elem(p),
                ));
            }
            for k in 0..m
                invariant
                    m <= selections@.len(),
                    sels == selections@,
                    e@.name == "input"@,
                    e@.attrs == attrs_pre,
                    e@.text == Seq::<char>::empty(),
                    e@.children == sels.take(k as int).map_values(
                        |p: (String, String)| spec_selection_elem(p),
                    ),
            {
                let mut se = XmlElem::new_elem("selection");
                se.push_attr("id", selections[k].0.as_str());
                se.push_attr("title", selections[k].1.as_str());
                proof {
                    assert(se@ =~~= spec_selection_elem(sels[k as int]));
                }
                e.push_child(se);
                proof {
                    assert(e@.children =~~= sels.take(k + 1).map_values(
                        |p: (String, String)| spec_selection_elem(p),
                    ));
                }
            }
            "selection"
        },
    };
    e.push_attr("type", type_str);
    if let Some(title) = &input.title {
        e.push_attr("title", title.as_str());
    }
    proof {
        assert(e@.attrs =~~= spec_input_attrs(*input));
        assert(e@.children =~~= spec_input_children(*input));
        assert(e@ =~~= spec_input_elem(*input));
    }
    parent.push_child(e);
}

/// The number of action buttons in the list.
pub open spec fn spec_num_actions(s: Seq<ActionsElem>) -> int
    decreases s.len(),
{
    if s.len() == 0 {
        0
    } else {
        spec_num_actions(s.drop_last()) + if s.last() is Action_ {
            1int
        } else {
            0int
        }
    }
}

/// The number of inputs in the list.
pub open spec fn spec_num_inputs(s: Seq<ActionsElem>) -> int
    decreases s.len(),
{
    if s.len() == 0 {
        0
    } else {
        spec_num_inputs(s.drop_last()) + if s.last() is Input_ {
            1int
        } else {
            0int
        }
    }
}

/// A count clamped to the rendering cap of five.
pub open spec fn spec_min5(n: int) -> int {
    if n < 5 {
        n
    } else {
        5
    }
}

/// The rendered children of the actions element: an action is rendered
/// while fewer than five actions came before it, an input while fewer than
/// five inputs did; each kind's overflow is skipped without counting
/// toward the other kind.
pub open spec fn spec_actions_children(s: Seq<ActionsElem>) -> Seq<SpecElem>
    decreases s.len(),
{
    if s.len() == 0 {
        Seq::empty()
    } else {
        spec_actions_children(s.drop_last()) + match s.last() {
            ActionsElem::Action_(a) => if spec_num_actions(s.drop_last()) < 5 {
                seq![spec_action_elem(a)]
            } else {
                Seq::empty()
            },
            ActionsElem::Input_(inp) => if spec_num_inputs(s.drop_last()) < 5 {
                seq![spec_input_elem(inp)]
            } else {
                Seq::empty()
            },
        }
    }
}

/// The actions element for a non-empty list.
pub open spec fn spec_actions_elem(s: Seq<ActionsElem>) -> SpecElem {
    SpecElem {
        name: "actions"@,
        attrs: Seq::empty(),
        text: Seq::empty(),
        children: spec_actions_children(s),
    }
}

/// Once five actions and five inputs have been rendered within a prefix,
/// the rest of the list renders nothing more.
proof fn lemma_actions_children_saturated(s: Seq<ActionsElem>, i: int)
    requires
        0 <= i <= s.len(),
        spec_num_actions(s.take(i)) >= 5,
        spec_num_inputs(s.take(i)) >= 5,
    ensures
        spec_actions_children(s) == spec_actions_children(s.take(i)),
    decreases s.len() - i,
{
    if i == s.len() {
        assert(s.take(i) =~= s);
    } else {
        assert(s.take(i + 1).drop_last() =~= s.take(i));
        assert(s.take(i + 1).last() == s[i]);
        assert(spec_actions_children(s.take(i + 1)) =~= spec_actions_children(s.take(i)));
        lemma_actions_children_saturated(s, i + 1);
    }
}

/// Appends the actions element when the list is non-empty; appends nothing
/// otherwise. Iteration stops once both rendering caps are reached. Never
/// fails.
pub fn add_actions(actions_elems: &Vec<ActionsElem>, parent: &mut XmlElem)
    ensures
        actions_elems@.len() == 0 ==> *final(parent) == *old(parent),
        actions_elems@.len() > 0 ==> final(parent)@ == with_child(
            old(parent)@,
            spec_actions_elem(actions_elems@),
        ),
{
    if actions_elems.len() == 0 {
        return ;
    }
    let ghost s = actions_elems@;
    let mut e = XmlElem::new_elem("actions");
    let mut action_count: usize = 0;
    let mut input_count: usize = 0;
    let mut i: usize = 0;
    proof {
        assert(e@.children =~~= spec_actions_children(s.take(0)));
    }
    while i < actions_elems.len() && !(action_count >= 5 && input_count >= 5)
        invariant
            s == actions_elems@,
            i <= s.len(),
            action_count as int == spec_min5(spec_num_actions(s.take(i as int))),
            input_count as int == spec_min5(spec_num_inputs(s.take(i as int))),
            e@.name == "actions"@,
            e@.attrs == Seq::<(Seq<char>, Seq<char>)>::empty(),
            e@.text == Seq::<char>::empty(),
            e@.children == spec_actions_children(s.take(i as int)),
        decreases s.len() - i,
    {
        match &actions_elems[i] {
            ActionsElem::Action_(action) => {
                if action_count < 5 {
                    add_action_elem(action, &mut e);
                    action_count = action_count + 1;
                }
            },
            ActionsElem::Input_(input) => {
                if input_count < 5 {
                    add_input_elem(input, &mut e);
                    input_count = input_count + 1;
                }
            },
        }
        proof {
            assert(s.take(i + 1).drop_last() =~= s.take(i as int));
            assert(s.take(i + 1).last() == s[i as int]);
            assert(e@.children =~~= spec_actions_children(s.take(i + 1)));
        }
        i = i + 1;
    }
    proof {
        if i < s.len() {
            lemma_actions_children_saturated(s, i as int);
        } else {
            assert(s.take(i as int) =~= s);
        }
        assert(e@ =~~= spec_actions_elem(s));
    }
    parent.push_child(e);
}

/// The `duration` attribute entry; empty for the default duration.
pub open spec fn spec_duration_attr(d: Duration) -> Seq<(Seq<char>, Seq<char>)> {
    match d {
        Duration::Default => Seq::empty(),
        Duration::Short => seq![("duration"@, "short"@)],
        Duration::Long => seq![("duration"@, "long"@)],
    }
}

fn duration_attr_str(d: &Duration) -> (r: Option<&'static str>)
    ensures
        match r {
            Some(v) => spec_duration_attr(*d) == seq![("duration"@, v@)],
            None => spec_duration_attr(*d) == Seq::<(Seq<char>, Seq<char>)>::empty(),
        },
{
    match d {
        Duration::Default => None,
        Duration::Short => Some("short"),
        Duration::Long => Some("long"),
    }
}

/// The `scenario` attribute entry; empty for the default scenario.
pub open spec fn spec_scenario_attr(s: Scenario) -> Seq<(Seq<char>, Seq<char>)> {
    match s {
        Scenario::Default => Seq::empty(),
        Scenario::Alarm => seq![("scenario"@, "alarm"@)],
        Scenario::Reminder => seq![("scenario"@, "reminder"@)],
        Scenario::IncomingCall => seq![("scenario"@, "incomingCall"@)],
        Scenario::Urgent => seq![("scenario"@, "urgent"@)],
    }
}

fn scenario_attr_str(s: &Scenario) -> (r: Option<&'static str>)
    ensures
        match r {
            Some(v) => spec_scenario_attr(*s) == seq![("scenario"@, v@)],
            None => spec_scenario_attr(*s) == Seq::<(Seq<char>, Seq<char>)>::empty(),
        },
{
    match s {
        Scenario::Default => None,
        Scenario::Alarm => Some("alarm"),
        Scenario::Reminder => Some("reminder"),
        Scenario::IncomingCall => Some("incomingCall"),
        Scenario::Urgent => Some("urgent"),
    }
}

/// The title element of a binding: a text element with the optional
/// maximum-line hint.
pub open spec fn spec_title_elem(title: (String, Option<u32>)) -> SpecElem {
    SpecElem {
        name: "text"@,
        attrs: spec_opt_u32_attr(title.1, "hint-maxLines"@),
        text: title.0@,
        children: Seq::empty(),
    }
}

/// A plain, unstyled text element.
pub open spec fn spec_plain_text_elem(t: Seq<char>) -> SpecElem {
    SpecElem { name: "text"@, attrs: Seq::empty(), text: t, children: Seq::empty() }
}

/// Whether one binding child passes validation.
pub open spec fn spec_inner_item_ok(e: BindingInnerElement) -> bool {
    match e {
        BindingInnerElement::Text(_) => true,
        BindingInnerElement::Group(g) => spec_group_ok(spec_group_view(g@)),
        BindingInnerElement::Image(img) => spec_image_ok(img),
    }
}

/// The elements one binding child contributes: one for text and images,
/// one or none for a group.
pub open spec fn spec_inner_item(e: BindingInnerElement) -> Seq<SpecElem> {
    match e {
        BindingInnerElement::Text(t) => seq![spec_plain_text_elem(t@)],
        BindingInnerElement::Group(g) => if spec_group_emitted(spec_group_view(g@)) {
            seq![spec_group_elem(spec_group_view(g@))]
        } else {
            Seq::empty()
        },
        BindingInnerElement::Image(img) => seq![spec_image_elem(img, Seq::empty(), true)],
    }
}

/// The elements the binding children contribute, in declaration order.
pub open spec fn spec_inner_elems(es: Seq<BindingInnerElement>) -> Seq<SpecElem>
    decreases es.len(),
{
    if es.len() == 0 {
        Seq::empty()
    } else {
        spec_inner_elems(es.drop_last()) + spec_inner_item(es.last())
    }
}

/// Whether a binding passes validation: its icon, hero and every child do.
pub open spec fn spec_binding_ok(b: BindingElem) -> bool {
    &&& match b.icon {
        Some(img) => spec_image_ok(img),
        None => true,
    }
    &&& match b.hero {
        Some(img) => spec_image_ok(img),
        None => true,
    }
    &&& forall|i: int| 0 <= i < b.elems@.len() ==> spec_inner_item_ok(#[trigger] b.elems@[i])
}

/// The image element for an optional icon or hero image.
pub open spec fn spec_opt_image_elem(o: Option<Image>, placement: Seq<char>) -> Seq<SpecElem> {
    match o {
        Some(img) => seq![spec_image_elem(img, placement, false)],
        None => Seq::empty(),
    }
}

/// The children of a binding: icon, hero, title, then the declared
/// children in order.
pub open spec fn spec_binding_children(b: BindingElem) -> Seq<SpecElem> {
    spec_opt_image_elem(b.icon, "appLogoOverride"@) + spec_opt_image_elem(b.hero, "hero"@)
        + seq![spec_title_elem(b.title)] + spec_inner_elems(b.elems@)
}

/// The binding element, always declaring the generic template.
pub open spec fn spec_binding_elem(b: BindingElem) -> SpecElem {
    SpecElem {
        name: "binding"@,
        attrs: seq![("template"@, "ToastGeneric"@)],
        text: Seq::empty(),
        children: spec_binding_children(b),
    }
}

fn add_binding(elem: &BindingElem, parent: &mut XmlElem) -> (r: Result<(), ValidationError>)
    ensures
        spec_binding_ok(*elem) ==> r is Ok && final(parent)@ == with_child(
            old(parent)@,
            spec_binding_elem(*elem),
        ),
        !spec_binding_ok(*elem) ==> r == Err::<(), ValidationError>(ValidationError::EmptyImageSrc)
            && *final(parent) == *old(parent),
{
    let mut b = XmlElem::new_elem("binding");
    b.push_attr("template", "ToastGeneric");
    proof {
        assert(b@.attrs =~~= seq![("template"@, "ToastGeneric"@)]);
    }
    if let Some(image) = &elem.icon {
        match add_image_elem_with_placement(image, &mut b, "appLogoOverride", false) {
            Ok(()) => {},
            Err(err) => {
                return Err(err);
            },
        }
    }
    if let Some(image) = &elem.hero {
        match add_image_elem_with_placement(image, &mut b, "hero", false) {
            Ok(()) => {},
            Err(err) => {
                return Err(err);
            },
        }
    }
    let mut title_e = XmlElem::new_elem("text");
    if let Some(value) = &elem.title.1 {
        let s = u32_to_string(*value);
        title_e.push_attr("hint-maxLines", s.as_str());
    }
    title_e.set_text(elem.title.0.as_str());
    proof {
        assert(title_e@.attrs =~~= spec_opt_u32_attr(elem.title.1, "hint-maxLines"@));
        assert(title_e@ =~~= spec_title_elem(elem.title));
    }
    b.push_child(title_e);
    let ghost head = spec_opt_image_elem(elem.icon, "appLogoOverride"@) + spec_opt_image_elem(
        elem.hero,
        "hero"@,
    ) + seq![spec_title_elem(elem.title)];
    let ghost es = elem.elems@;
    proof {
        assert(b@.children =~~= head + spec_inner_elems(es.take(0)));
    }
    for i in 0..elem.elems.len()
        invariant
            es == elem.elems@,
            forall|j: int| 0 <= j < i ==> spec_inner_item_ok(#[trigger] es[j]),
            b@.name == "binding"@,
            b@.attrs == seq![("template"@, "ToastGeneric"@)],
            b@.text == Seq::<char>::empty(),
            b@.children == head + spec_inner_elems(es.take(i as int)),
    {
        match &elem.elems[i] {
            BindingInnerElement::Text(text) => {
                let mut text_e = XmlElem::new_elem("text");
                text_e.set_text(text.as_str());
                proof {
                    assert(text_e@ =~~= spec_plain_text_elem(text@));
                }
                b.push_child(text_e);
            },
            BindingInnerElement::Group(group_elems) => {
                match add_group(group_elems, &mut b) {
                    Ok(()) => {},
                    Err(err) => {
                        proof {
                            assert(!spec_inner_item_ok(es[i as int]));
                            assert(!spec_binding_ok(*elem));
                        }
                        return Err(err);
                    },
                }
            },
            BindingInnerElement::Image(image) => {
                match add_image_elem(image, &mut b) {
                    Ok(()) => {},
                    Err(err) => {
                        proof {
                            assert(!spec_inner_item_ok(es[i as int]));
                            assert(!spec_binding_ok(*elem));
                        }
                        return Err(err);
                    },
                }
            },
        }
        proof {
            assert(es.take(i + 1).drop_last() =~= es.take(i as int));
            assert(es.take(i + 1).last() == es[i as int]);
            assert(b@.children =~~= head + spec_inner_elems(es.take(i + 1)));
        }
    }
    proof {
        assert(es.take(es.len() as int) =~= es);
        assert(b@ =~~= spec_binding_elem(*elem));
    }
    parent.push_child(b);
    Ok(())
}

/// The top-level attributes of the toast element: the button-style flag
/// only when set, the timestamp only when present, duration and scenario
/// only for non-default members.
pub open spec fn spec_toast_attrs(t: Toast) -> Seq<(Seq<char>, Seq<char>)> {
    opt_attr(t.use_btn_style, "useButtonStyle"@, "true"@) + spec_opt_str_attr(
        t.display_timestamp,
        "displayTimestamp"@,
    ) + spec_duration_attr(t.duration) + spec_scenario_attr(t.scenario)
}

/// A toast description passes validation when every binding does.
pub open spec fn spec_toast_ok(t: Toast) -> bool {
    forall|i: int|
        0 <= i < t.binding_elems@.len() ==> spec_binding_ok(#[trigger] t.binding_elems@[i])
}

/// The visual element: one binding element per variant, in order.
pub open spec fn spec_visual_elem(t: Toast) -> SpecElem {
    SpecElem {
        name: "visual"@,
        attrs: Seq::empty(),
        text: Seq::empty(),
        children: t.binding_elems@.map_values(|b: BindingElem| spec_binding_elem(b)),
    }
}

/// The audio element, as a child list: one element when audio is present.
pub open spec fn spec_audio_children(audio: Option<(bool, bool, SoundSrc)>) -> Seq<SpecElem> {
    match audio {
        Some((loops, silent, src)) => seq![spec_audio_elem(loops, silent, src)],
        None => Seq::empty(),
    }
}

/// The actions element, as a child list: one element when the list is
/// non-empty.
pub open spec fn spec_actions_opt(actions: Seq<ActionsElem>) -> Seq<SpecElem> {
    if actions.len() == 0 {
        Seq::empty()
    } else {
        seq![spec_actions_elem(actions)]
    }
}

/// The complete toast document: the toast element with its attributes and
/// its visual, audio and actions children, in that order.
pub open spec fn spec_toast_doc(t: Toast) -> SpecElem {
    SpecElem {
        name: "toast"@,
        attrs: spec_toast_attrs(t),
        text: Seq::empty(),
        children: seq![spec_visual_elem(t)] + spec_audio_children(t.audio) + spec_actions_opt(
            t.actions@,
        ),
    }
}

impl Toast {
    /// The app id under which a scripting-host-hosted notification can be
    /// shown without registering an app of one's own.
    pub const POWERSHELL_APP_ID: &'static str =
        "{1AC14E77-02E7-4E5D-B744-2EB1AE5198B7}\\WindowsPowerShell\\v1.0\\powershell.exe";

    /// Builds the toast document for this description: the toast element
    /// with its attributes and its visual, audio and actions children.
    /// Fails exactly when a required image source is empty, and then
    /// returns no partial document.
    pub fn create_notification(&self) -> (r: Result<XmlElem, ValidationError>)
        ensures
            spec_toast_ok(*self) ==> (r matches Ok(d) && d@ == spec_toast_doc(*self)),
            !spec_toast_ok(*self) ==> r == Err::<XmlElem, ValidationError>(
                ValidationError::EmptyImageSrc,
            ),
    {
        let mut toast_e = XmlElem::new_elem("toast");
        if self.use_btn_style {
            toast_e.push_attr("useButtonStyle", "true");
        }
        if let Some(timestamp) = &self.display_timestamp {
            toast_e.push_attr("displayTimestamp", timestamp.as_str());
        }
        if let Some(v) = duration_attr_str(&self.duration) {
            toast_e.push_attr("duration", v);
        }
        if let Some(v) = scenario_attr_str(&self.scenario) {
            toast_e.push_attr("scenario", v);
        }
        proof {
            assert(toast_e@.attrs =~~= spec_toast_attrs(*self));
        }
        let mut visual_e = XmlElem::new_elem("visual");
        let ghost bs = self.binding_elems@;
        proof {
            assert(visual_e@.children =~~= bs.take(0).map_values(
                |b: BindingElem| spec_binding_elem(b),
            ));
        }
        for i in 0..self.binding_elems.len()
            invariant
                bs == self.binding_elems@,
                forall|j: int| 0 <= j < i ==> spec_binding_ok(#[trigger] bs[j]),
                visual_e@.name == "visual"@,
                visual_e@.attrs == Seq::<(Seq<char>, Seq<char>)>::empty(),
                visual_e@.text == Seq::<char>::empty(),
                visual_e@.children == bs.take(i as int).map_values(
                    |b: BindingElem| spec_binding_elem(b),
                ),
        {
            match add_binding(&self.binding_elems[i], &mut visual_e) {
                Ok(()) => {},
                Err(err) => {
                    proof {
                        assert(!spec_binding_ok(bs[i as int]));
                        assert(!spec_toast_ok(*self));
                    }
                    return Err(err);
                },
            }
            proof {
                assert(visual_e@.children =~~= bs.take(i + 1).map_values(
                    |b: BindingElem| spec_binding_elem(b),
                ));
            }
        }
        proof {
            assert(bs.take(bs.len() as int) =~= bs);
            assert(visual_e@ =~~= spec_visual_elem(*self));
            assert(spec_toast_ok(*self));
        }
        toast_e.push_child(visual_e);
        add_audio(&self.audio, &mut toast_e);
        add_actions(&self.actions, &mut toast_e);
        proof {
            assert(toast_e@.children =~~= seq![spec_visual_elem(*self)] + spec_audio_children(
                self.audio,
            ) + spec_actions_opt(self.actions@));
            assert(toast_e@ =~~= spec_toast_doc(*self));
        }
        Ok(toast_e)
    }

    /// The serialized XML text of the document this description builds.
    /// Fails exactly when `create_notification` does.
    pub fn to_xml_string(&self) -> (r: Result<String, ValidationError>)
        ensures
            spec_toast_ok(*self) ==> (r matches Ok(s) && s@ == spec_xml(spec_toast_doc(*self))),
            !spec_toast_ok(*self) ==> r == Err::<String, ValidationError>(
                ValidationError::EmptyImageSrc,
            ),
    {
        match self.create_notification() {
            Ok(d) => Ok(d.to_xml()),
            Err(err) => Err(err),
        }
    }
}

/// For any list of action-area entries, the rendered action elements
/// number `min(5, actions supplied)` and the rendered input elements
/// `min(5, inputs supplied)`, however the two kinds interleave.
pub proof fn lemma_actions_rendered_counts(s: Seq<ActionsElem>)
    ensures
        spec_count_named(spec_actions_children(s), "action"@) == spec_min5(spec_num_actions(s)),
        spec_count_named(spec_actions_children(s), "input"@) == spec_min5(spec_num_inputs(s)),
    decreases s.len(),
{
    reveal_strlit("action");
    reveal_strlit("input");
    if s.len() == 0 {
    } else {
        let prefix = s.drop_last();
        lemma_actions_rendered_counts(prefix);
        match s.last() {
            ActionsElem::Action_(a) => {
                if spec_num_actions(prefix) < 5 {
                    let whole = spec_actions_children(prefix) + seq![spec_action_elem(a)];
                    assert(spec_actions_children(s) == whole);
                    assert(whole.drop_last() =~= spec_actions_children(prefix));
                    assert(whole.last() == spec_action_elem(a));
                    assert(whole.last().name == "action"@);
                    assert("action"@ != "input"@);
                    assert(spec_count_named(whole, "action"@) == spec_count_named(
                        spec_actions_children(prefix),
                        "action"@,
                    ) + 1);
                    assert(spec_count_named(whole, "input"@) == spec_count_named(
                        spec_actions_children(prefix),
                        "input"@,
                    ));
                    assert(spec_num_actions(s) == spec_num_actions(prefix) + 1);
                    assert(spec_num_inputs(s) == spec_num_inputs(prefix));
                } else {
                    assert(spec_actions_children(s) =~= spec_actions_children(prefix));
                    assert(spec_num_actions(s) == spec_num_actions(prefix) + 1);
                    assert(spec_num_inputs(s) == spec_num_inputs(prefix));
                }
            },
            ActionsElem::Input_(inp) => {
                if spec_num_inputs(prefix) < 5 {
                    let whole = spec_actions_children(prefix) + seq![spec_input_elem(inp)];
                    assert(spec_actions_children(s) == whole);
                    assert(whole.drop_last() =~= spec_actions_children(prefix));
                    assert(whole.last() == spec_input_elem(inp));
                    assert(whole.last().name == "input"@);
                    assert("action"@ != "input"@);
                    assert(spec_count_named(whole, "input"@) == spec_count_named(
                        spec_actions_children(prefix),
                        "input"@,
                    ) + 1);
                    assert(spec_count_named(whole, "action"@) == spec_count_named(
                        spec_actions_children(prefix),
                        "action"@,
                    ));
                    assert(spec_num_inputs(s) == spec_num_inputs(prefix) + 1);
                    assert(spec_num_actions(s) == spec_num_actions(prefix));
                } else {
                    assert(spec_actions_children(s) =~= spec_actions_children(prefix));
                    assert(spec_num_inputs(s) == spec_num_inputs(prefix) + 1);
                    assert(spec_num_actions(s) == spec_num_actions(prefix));
                }
            },
        }
    }
}

/// A selection input offered more than five pairs renders exactly five
/// selection children: the first five, in their original order.
pub proof fn lemma_selection_capped(inp: Input)
    requires
        match inp.type_ {
            InputType::Selection(_, sels) => sels@.len() > 5,
            _ => false,
        },
    ensures
        spec_input_elem(inp).children.len() == 5,
        forall|k: int|
            0 <= k < 5 ==> match inp.type_ {
                InputType::Selection(_, sels) => #[trigger] spec_input_elem(inp).children[k]
                    == spec_selection_elem(sels@[k]),
                _ => true,
            },
{
}

/// An action placed in the context menu always emits the literal
/// `contextMenu` as its activation type, whatever activation type was
/// supplied with it.
pub proof fn lemma_context_menu_precedence(a: Action)
    requires
        a.placement is ContextMenu,
    ensures
        spec_attr_value(spec_action_elem(a).attrs, "activationType"@) == Some("contextMenu"@),
{
    reveal_strlit("content");
    reveal_strlit("arguments");
    reveal_strlit("activationType");
    let attrs = spec_action_attrs(a);
    assert(attrs.len() >= 3);
    assert(attrs.first() == ("content"@, a.content@));
    assert("content"@.len() == 7);
    assert("activationType"@.len() == 14);
    assert(attrs.first().0 != "activationType"@);
    assert(spec_attr_value(attrs, "activationType"@) == spec_attr_value(
        attrs.drop_first(),
        "activationType"@,
    ));
    let a1 = attrs.drop_first();
    assert(a1.first() == ("arguments"@, a.arguments@));
    assert(spec_attr_value(a1, "activationType"@) == spec_attr_value(
        a1.drop_first(),
        "activationType"@,
    ));
    let a2 = a1.drop_first();
    assert(a2.first() == ("activationType"@, "contextMenu"@));
}

/// A group whose subgroups are all empty appends no group element to its
/// parent.
pub proof fn lemma_all_empty_group_not_emitted(gs: Seq<Seq<SubgroupElement>>)
    requires
        forall|i: int| 0 <= i < gs.len() ==> (#[trigger] gs[i]).len() == 0,
    ensures
        !spec_group_emitted(gs),
    decreases gs.len(),
{
    if gs.len() == 0 {
    } else {
        assert(gs.last().len() == 0);
        lemma_all_empty_group_not_emitted(gs.drop_last());
    }
}

/// A non-looping sound source always writes `loop="false"`, whatever loop
/// flag the caller supplied.
pub proof fn lemma_nonlooping_audio(loops: bool, silent: bool, src: SoundSrc)
    requires
        !spec_sound_loops(src),
    ensures
        spec_attr_value(spec_audio_elem(loops, silent, src).attrs, "loop"@) == Some("false"@),
{
    assert(spec_audio_elem(loops, silent, src).attrs.first() == (
        "loop"@,
        spec_bool_str(loops && spec_sound_loops(src)),
    ));
}

} // verus!
