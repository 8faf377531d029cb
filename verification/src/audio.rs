//! Audio dropdown helpers: which PulseAudio streams are shown, their display
//! names and icons, and device icons.

use vstd::prelude::*;

use crate::text::{
    contains, contains_spec, ends_with, ends_with_spec, lowercase, str_opt_view, string_opt_view,
    text_eq, to_lowercase, to_uppercase, uppercase_char,
};

verus! {

/// A PulseAudio property list (`key -> value`). A later insertion of a key
/// replaces the earlier one.
#[derive(Debug)]
pub struct Props {
    entries: Vec<(String, String)>,
}

/// The value of `key` in a list of insertions: the last insertion wins.
pub open spec fn lookup(entries: Seq<(String, String)>, key: Seq<char>) -> Option<Seq<char>>
    decreases entries.len(),
{
    if entries.len() == 0 {
        None
    } else if entries.last().0@ == key {
        Some(entries.last().1@)
    } else {
        lookup(entries.drop_last(), key)
    }
}

impl Props {
    /// The value of `key`, if present.
    pub closed spec fn spec_get(&self, key: Seq<char>) -> Option<Seq<char>> {
        lookup(self.entries@, key)
    }

    /// An empty property list.
    pub fn new() -> (r: Self)
        ensures
            forall|k: Seq<char>| r.spec_get(k) is None,
    {
        Props { entries: Vec::new() }
    }

    /// Sets `key` to `value`.
    pub fn insert(&mut self, key: String, value: String)
        ensures
            final(self).spec_get(key@) == Some(value@),
            forall|k: Seq<char>| k != key@ ==> final(self).spec_get(k) == old(self).spec_get(k),
    {
        let ghost old_entries = self.entries@;
        self.entries.push((key, value));
        assert(self.entries@.drop_last() =~= old_entries);
    }

    /// The value of `key`, if present.
    pub fn get(&self, key: &str) -> (r: Option<&String>)
        ensures
            match r {
                Some(v) => self.spec_get(key@) == Some(v@),
                None => self.spec_get(key@) is None,
            },
    {
        let mut i = self.entries.len();
        assert(self.entries@.take(i as int) =~= self.entries@);
        while i > 0
            invariant
                i <= self.entries@.len(),
                lookup(self.entries@, key@) == lookup(self.entries@.take(i as int), key@),
            decreases i,
        {
            let ghost prefix = self.entries@.take(i as int);
            assert(prefix.drop_last() =~= self.entries@.take(i - 1));
            assert(prefix.last() == self.entries@[i - 1]);
            if text_eq(self.entries[i - 1].0.as_str(), key) {
                return Some(&self.entries[i - 1].1);
            }
            i = i - 1;
        }
        None
    }
}

/// Reading a key back gives the last value written for it; writing one key
/// leaves every other key as it was.
pub proof fn lemma_props_read_after_write(entries: Seq<(String, String)>, key: String, value: String, other: Seq<char>)
    ensures
        lookup(entries.push((key, value)), key@) == Some(value@),
        other != key@ ==> lookup(entries.push((key, value)), other) == lookup(entries, other),
{
    assert(entries.push((key, value)).drop_last() =~= entries);
}

/// Whether the stream is a system event sound (stream-restore id
/// `sink-input-by-media-role:event`), which the dropdown hides.
pub fn is_event_stream(props: &Props) -> (r: bool)
    ensures
        r == (props.spec_get("module-stream-restore.id"@) == Some(
            "sink-input-by-media-role:event"@,
        )),
{
    match props.get("module-stream-restore.id") {
        Some(id) => text_eq(id.as_str(), "sink-input-by-media-role:event"),
        None => false,
    }
}

/// Where stream icons come from.
#[derive(Debug, Clone, Copy, PartialEq, Eq, Structural)]
pub enum AppIconSource {
    /// The icon names PulseAudio reports, unchanged.
    Native,
    /// Symbolic icons: the icon theme first, then built-in mappings, then the
    /// reported icon name with a `-symbolic` suffix.
    Mapped,
}

/// The properties tried, in order, when resolving a mapped stream icon.
pub open spec fn candidate_key(i: int) -> Seq<char> {
    if i == 0 {
        "application.name"@
    } else if i == 1 {
        "application.process.binary"@
    } else {
        "application.icon_name"@
    }
}

fn owned(v: Option<&String>) -> (r: Option<String>)
    ensures
        string_opt_view(r) == match v {
            Some(x) => Some(x@),
            None => None::<Seq<char>>,
        },
{
    match v {
        Some(x) => Some(x.clone()),
        None => None,
    }
}

/// The values of the candidate properties (application name, process binary,
/// icon name), in the order they are tried. Each present value is to be
/// looked up in the icon theme and in the built-in icon mappings.
pub fn stream_icon_candidates(props: &Props) -> (r: Vec<Option<String>>)
    ensures
        r@.len() == 3,
        forall|i: int| 0 <= i < 3 ==> string_opt_view(#[trigger] r@[i]) == props.spec_get(candidate_key(i)),
{
    let mut r: Vec<Option<String>> = Vec::new();
    r.push(owned(props.get("application.name")));
    r.push(owned(props.get("application.process.binary")));
    r.push(owned(props.get("application.icon_name")));
    assert(r@[0] == r@[0]);
    r
}

/// The first lookup result `found[i]` (from `i` on) whose candidate property
/// is present.
pub open spec fn first_found(props_present: Seq<bool>, found: Seq<Option<String>>, i: int) -> Option<Seq<char>>
    decreases 3 - i,
{
    if i >= 3 {
        None
    } else if props_present[i] && found[i] is Some {
        Some(found[i]->0@)
    } else {
        first_found(props_present, found, i + 1)
    }
}

/// The mapped fallback: the reported icon name, made symbolic.
pub open spec fn symbolic_name(name: Seq<char>) -> Seq<char> {
    if ends_with_spec(name, "-symbolic"@) {
        name
    } else {
        name + "-symbolic"@
    }
}

/// Whether each candidate property is present.
pub open spec fn present(props: Props) -> Seq<bool> {
    seq![
        props.spec_get(candidate_key(0)) is Some,
        props.spec_get(candidate_key(1)) is Some,
        props.spec_get(candidate_key(2)) is Some,
    ]
}

/// The icon of a stream.
pub open spec fn stream_icon_spec(
    props: Props,
    source: AppIconSource,
    theme: Seq<Option<String>>,
    mapped: Seq<Option<String>>,
) -> Option<Seq<char>> {
    match source {
        AppIconSource::Native => match props.spec_get("application.icon_name"@) {
            Some(n) => Some(n),
            None => props.spec_get("application.process.binary"@),
        },
        AppIconSource::Mapped => if first_found(present(props), theme, 0) is Some {
            first_found(present(props), theme, 0)
        } else if first_found(present(props), mapped, 0) is Some {
            first_found(present(props), mapped, 0)
        } else {
            match props.spec_get("application.icon_name"@) {
                Some(n) => Some(symbolic_name(n)),
                None => None,
            }
        },
    }
}

fn first_lookup(candidates: &Vec<Option<String>>, found: &Vec<Option<String>>) -> (r: Option<String>)
    requires
        candidates@.len() == 3,
        found@.len() == 3,
    ensures
        string_opt_view(r) == first_found(
            Seq::new(3, |i: int| candidates@[i] is Some),
            found@,
            0,
        ),
{
    let ghost pres = Seq::new(3, |i: int| candidates@[i] is Some);
    let mut i: usize = 0;
    while i < 3
        invariant
            candidates@.len() == 3,
            found@.len() == 3,
            i <= 3,
            pres == Seq::new(3, |i: int| candidates@[i] is Some),
            first_found(pres, found@, 0) == first_found(pres, found@, i as int),
        decreases 3 - i,
    {
        if candidates[i].is_some() {
            if let Some(icon) = &found[i] {
                return Some(icon.clone());
            }
        }
        i = i + 1;
    }
    None
}

/// Resolves a stream's icon. `theme[i]` and `mapped[i]` are the icon-theme
/// and built-in-mapping lookups of the `i`-th value of
/// [`stream_icon_candidates`] (consulted only where that value is present).
/// Mapped icons prefer the theme over the mappings for every candidate, then
/// fall back to the reported icon name made symbolic; native icons take the
/// reported icon name, else the process binary.
pub fn stream_icon(
    props: &Props,
    icon_source: AppIconSource,
    theme: &Vec<Option<String>>,
    mapped: &Vec<Option<String>>,
) -> (r: Option<String>)
    requires
        theme@.len() == 3,
        mapped@.len() == 3,
    ensures
        string_opt_view(r) == stream_icon_spec(*props, icon_source, theme@, mapped@),
{
    match icon_source {
        AppIconSource::Native => {
            match props.get("application.icon_name") {
                Some(n) => Some(n.clone()),
                None => owned(props.get("application.process.binary")),
            }
        },
        AppIconSource::Mapped => {
            let candidates = stream_icon_candidates(props);
            assert(Seq::new(3, |i: int| candidates@[i] is Some) =~= present(*props));
            if let Some(icon) = first_lookup(&candidates, theme) {
                return Some(icon);
            }
            if let Some(icon) = first_lookup(&candidates, mapped) {
                return Some(icon);
            }
            match props.get("application.icon_name") {
                Some(name) => {
                    if ends_with(name.as_str(), "-symbolic") {
                        Some(name.clone())
                    } else {
                        let mut s = name.clone();
                        s.append("-symbolic");
                        Some(s)
                    }
                },
                None => None,
            }
        },
    }
}

/// Icon of the microphone toggle.
pub fn input_icon(muted: bool) -> (r: &'static str)
    ensures
        muted ==> r@ == "ld-mic-off-symbolic"@,
        !muted ==> r@ == "ld-mic-symbolic"@,
{
    if muted {
        "ld-mic-off-symbolic"
    } else {
        "ld-mic-symbolic"
    }
}

/// The name shown for a stream: the application name unless missing or
/// empty, else the stream name; its first character upper-cased.
pub open spec fn display_name_spec(application_name: Option<Seq<char>>, stream_name: Seq<char>) -> Seq<char> {
    let name = match application_name {
        Some(n) => if n.len() > 0 {
            n
        } else {
            stream_name
        },
        None => stream_name,
    };
    if name.len() == 0 {
        Seq::empty()
    } else {
        uppercase_char(name[0]) + name.drop_first()
    }
}

/// The display name of a stream's application.
pub fn app_display_name(application_name: &Option<String>, stream_name: &str) -> (r: String)
    ensures
        r@ == display_name_spec(string_opt_view(*application_name), stream_name@),
{
    let name: &str = match application_name {
        Some(n) => if n.as_str().unicode_len() > 0 {
            n.as_str()
        } else {
            stream_name
        },
        None => stream_name,
    };
    let len = name.unicode_len();
    if len == 0 {
        return String::new();
    }
    let mut out = to_uppercase(name.get_char(0));
    out.append(name.substring_char(1, len));
    out
}

/// Icon of an output device nothing more specific is known of.
pub const DEFAULT_OUTPUT_ICON: &'static str = "tb-device-speaker-symbolic";

/// Icon of an input device nothing more specific is known of.
pub const DEFAULT_INPUT_ICON: &'static str = "tb-microphone-symbolic";

/// The icon for an output device's `device.form_factor`, if it names one.
pub open spec fn output_form_factor_spec(ff: Seq<char>) -> Option<Seq<char>> {
    if ff == "internal"@ || ff == "speaker"@ || ff == "hifi"@ {
        Some("tb-device-speaker-symbolic"@)
    } else if ff == "headphone"@ {
        Some("tb-headphones-symbolic"@)
    } else if ff == "headset"@ {
        Some("tb-headset-symbolic"@)
    } else if ff == "phone"@ {
        Some("tb-device-mobile-symbolic"@)
    } else if ff == "portable"@ {
        Some("tb-radio-symbolic"@)
    } else if ff == "car"@ {
        Some("tb-car-symbolic"@)
    } else if ff == "computer"@ {
        Some("tb-device-desktop-symbolic"@)
    } else {
        None
    }
}

/// The icon for an input device's `device.form_factor`, if it names one.
pub open spec fn input_form_factor_spec(ff: Seq<char>) -> Option<Seq<char>> {
    if ff == "internal"@ || ff == "microphone"@ {
        Some("tb-microphone-symbolic"@)
    } else if ff == "headset"@ {
        Some("tb-headset-symbolic"@)
    } else if ff == "webcam"@ {
        Some("tb-device-computer-camera-symbolic"@)
    } else if ff == "phone"@ {
        Some("tb-device-mobile-symbolic"@)
    } else {
        None
    }
}

/// Each form factor an input device can name has its own fixed icon:
/// a webcam shows the camera, a built-in or plain microphone the
/// microphone, a headset the headset and a phone the phone; any other
/// form factor names none.
pub proof fn lemma_input_form_factor_icons()
    ensures
        input_form_factor_spec("webcam"@) == Some("tb-device-computer-camera-symbolic"@),
        input_form_factor_spec("internal"@) == Some("tb-microphone-symbolic"@),
        input_form_factor_spec("microphone"@) == Some("tb-microphone-symbolic"@),
        input_form_factor_spec("headset"@) == Some("tb-headset-symbolic"@),
        input_form_factor_spec("phone"@) == Some("tb-device-mobile-symbolic"@),
        forall|ff: Seq<char>|
            ff != "webcam"@ && ff != "internal"@ && ff != "microphone"@ && ff != "headset"@ && ff
                != "phone"@ ==> (#[trigger] input_form_factor_spec(ff)) is None,
{
    reveal_strlit("webcam");
    reveal_strlit("internal");
    reveal_strlit("microphone");
    reveal_strlit("headset");
    reveal_strlit("phone");
    assert("webcam"@[0] == 'w');
    assert("webcam"@[1] == 'e');
    assert("webcam"@[4] == 'a');
    assert("internal"@[0] == 'i');
    assert("internal"@[1] == 'n');
    assert("internal"@[4] == 'r');
    assert("microphone"@[0] == 'm');
    assert("microphone"@[1] == 'i');
    assert("microphone"@[4] == 'o');
    assert("headset"@[0] == 'h');
    assert("headset"@[1] == 'e');
    assert("headset"@[4] == 's');
    assert("phone"@[0] == 'p');
    assert("phone"@[1] == 'h');
    assert("phone"@[4] == 'e');
}

/// Each form factor an output device can name has its own fixed icon:
/// built-in, speaker and hi-fi show the speaker, headphones the headphones,
/// a headset the headset, a phone the phone, a portable device the radio,
/// a car the car and a computer the desktop; any other names none.
pub proof fn lemma_output_form_factor_icons()
    ensures
        output_form_factor_spec("internal"@) == Some("tb-device-speaker-symbolic"@),
        output_form_factor_spec("speaker"@) == Some("tb-device-speaker-symbolic"@),
        output_form_factor_spec("hifi"@) == Some("tb-device-speaker-symbolic"@),
        output_form_factor_spec("headphone"@) == Some("tb-headphones-symbolic"@),
        output_form_factor_spec("headset"@) == Some("tb-headset-symbolic"@),
        output_form_factor_spec("phone"@) == Some("tb-device-mobile-symbolic"@),
        output_form_factor_spec("portable"@) == Some("tb-radio-symbolic"@),
        output_form_factor_spec("car"@) == Some("tb-car-symbolic"@),
        output_form_factor_spec("computer"@) == Some("tb-device-desktop-symbolic"@),
        forall|ff: Seq<char>|
            ff != "internal"@ && ff != "speaker"@ && ff != "hifi"@ && ff != "headphone"@ && ff
                != "headset"@ && ff != "phone"@ && ff != "portable"@ && ff != "car"@ && ff
                != "computer"@ ==> (#[trigger] output_form_factor_spec(ff)) is None,
{
    reveal_strlit("internal");
    reveal_strlit("speaker");
    reveal_strlit("hifi");
    reveal_strlit("headphone");
    reveal_strlit("headset");
    reveal_strlit("phone");
    reveal_strlit("portable");
    reveal_strlit("car");
    reveal_strlit("computer");
    assert("internal"@[0] == 'i');
    assert("internal"@[1] == 'n');
    assert("internal"@[4] == 'r');
    assert("speaker"@[0] == 's');
    assert("speaker"@[1] == 'p');
    assert("speaker"@[4] == 'k');
    assert("hifi"@[0] == 'h');
    assert("hifi"@[1] == 'i');
    assert("headphone"@[0] == 'h');
    assert("headphone"@[1] == 'e');
    assert("headphone"@[4] == 'p');
    assert("headset"@[0] == 'h');
    assert("headset"@[1] == 'e');
    assert("headset"@[4] == 's');
    assert("phone"@[0] == 'p');
    assert("phone"@[1] == 'h');
    assert("phone"@[4] == 'e');
    assert("portable"@[0] == 'p');
    assert("portable"@[1] == 'o');
    assert("portable"@[4] == 'a');
    assert("car"@[0] == 'c');
    assert("car"@[1] == 'a');
    assert("computer"@[0] == 'c');
    assert("computer"@[1] == 'o');
    assert("computer"@[4] == 'u');
}

/// The lower-cased `"{name} {description}"` searched by the name heuristics.
pub open spec fn haystack_spec(name: Seq<char>, description: Seq<char>) -> Seq<char> {
    lowercase(name + " "@ + description)
}

/// The output icon guessed from the device name and description.
pub open spec fn output_name_spec(h: Seq<char>) -> Seq<char> {
    if contains_spec(h, "hdmi"@) || contains_spec(h, "displayport"@) || contains_spec(h, "monitor"@) {
        "tb-device-tv-symbolic"@
    } else if contains_spec(h, "headset"@) || contains_spec(h, "airpods"@) {
        "tb-headset-symbolic"@
    } else if contains_spec(h, "headphone"@) || contains_spec(h, "bluetooth"@) {
        "tb-headphones-symbolic"@
    } else {
        "tb-device-speaker-symbolic"@
    }
}

/// The input icon guessed from the device name and description.
pub open spec fn input_name_spec(h: Seq<char>) -> Seq<char> {
    if contains_spec(h, "headset"@) || contains_spec(h, "airpods"@) {
        "tb-headset-symbolic"@
    } else if contains_spec(h, "bluetooth"@) {
        "tb-headphones-symbolic"@
    } else if contains_spec(h, "webcam"@) || contains_spec(h, "camera"@) {
        "tb-device-computer-camera-symbolic"@
    } else {
        "tb-microphone-symbolic"@
    }
}

fn output_icon_from_form_factor(properties: &Props) -> (r: Option<&'static str>)
    ensures
        str_opt_view(r) == (match properties.spec_get("device.form_factor"@) {
            Some(ff) => output_form_factor_spec(ff),
            None => None,
        }),
{
    let ff = match properties.get("device.form_factor") {
        Some(v) => v.as_str(),
        None => return None,
    };
    if text_eq(ff, "internal") || text_eq(ff, "speaker") || text_eq(ff, "hifi") {
        Some("tb-device-speaker-symbolic")
    } else if text_eq(ff, "headphone") {
        Some("tb-headphones-symbolic")
    } else if text_eq(ff, "headset") {
        Some("tb-headset-symbolic")
    } else if text_eq(ff, "phone") {
        Some("tb-device-mobile-symbolic")
    } else if text_eq(ff, "portable") {
        Some("tb-radio-symbolic")
    } else if text_eq(ff, "car") {
        Some("tb-car-symbolic")
    } else if text_eq(ff, "computer") {
        Some("tb-device-desktop-symbolic")
    } else {
        None
    }
}

fn input_icon_from_form_factor(properties: &Props) -> (r: Option<&'static str>)
    ensures
        str_opt_view(r) == (match properties.spec_get("device.form_factor"@) {
            Some(ff) => input_form_factor_spec(ff),
            None => None,
        }),
{
    let ff = match properties.get("device.form_factor") {
        Some(v) => v.as_str(),
        None => return None,
    };
    if text_eq(ff, "internal") || text_eq(ff, "microphone") {
        Some("tb-microphone-symbolic")
    } else if text_eq(ff, "headset") {
        Some("tb-headset-symbolic")
    } else if text_eq(ff, "webcam") {
        Some("tb-device-computer-camera-symbolic")
    } else if text_eq(ff, "phone") {
        Some("tb-device-mobile-symbolic")
    } else {
        None
    }
}

fn haystack(name: &str, description: &str) -> (r: String)
    ensures
        r@ == haystack_spec(name@, description@),
{
    let mut joined = String::from_str(name);
    joined.append(" ");
    joined.append(description);
    to_lowercase(joined.as_str())
}

fn output_icon_from_name(name: &str, description: &str) -> (r: &'static str)
    ensures
        r@ == output_name_spec(haystack_spec(name@, description@)),
{
    let h = haystack(name, description);
    let h = h.as_str();
    if contains(h, "hdmi") || contains(h, "displayport") || contains(h, "monitor") {
        "tb-device-tv-symbolic"
    } else if contains(h, "headset") || contains(h, "airpods") {
        "tb-headset-symbolic"
    } else if contains(h, "headphone") || contains(h, "bluetooth") {
        "tb-headphones-symbolic"
    } else {
        DEFAULT_OUTPUT_ICON
    }
}

fn input_icon_from_name(name: &str, description: &str) -> (r: &'static str)
    ensures
        r@ == input_name_spec(haystack_spec(name@, description@)),
{
    let h = haystack(name, description);
    let h = h.as_str();
    if contains(h, "headset") || contains(h, "airpods") {
        "tb-headset-symbolic"
    } else if contains(h, "bluetooth") {
        "tb-headphones-symbolic"
    } else if contains(h, "webcam") || contains(h, "camera") {
        "tb-device-computer-camera-symbolic"
    } else {
        DEFAULT_INPUT_ICON
    }
}

/// Icon of an output device: its form factor when it names one, else a guess
/// from its name and description (speaker by default).
pub fn output_device_icon(name: &str, description: &str, properties: &Props) -> (r: &'static str)
    ensures
        r@ == (match properties.spec_get("device.form_factor"@) {
            Some(ff) => match output_form_factor_spec(ff) {
                Some(icon) => icon,
                None => output_name_spec(haystack_spec(name@, description@)),
            },
            None => output_name_spec(haystack_spec(name@, description@)),
        }),
        properties.spec_get("device.form_factor"@) == Some("internal"@) ==> r@ == "tb-device-speaker-symbolic"@,
        properties.spec_get("device.form_factor"@) == Some("speaker"@) ==> r@ == "tb-device-speaker-symbolic"@,
        properties.spec_get("device.form_factor"@) == Some("hifi"@) ==> r@ == "tb-device-speaker-symbolic"@,
        properties.spec_get("device.form_factor"@) == Some("headphone"@) ==> r@ == "tb-headphones-symbolic"@,
        properties.spec_get("device.form_factor"@) == Some("headset"@) ==> r@ == "tb-headset-symbolic"@,
        properties.spec_get("device.form_factor"@) == Some("phone"@) ==> r@ == "tb-device-mobile-symbolic"@,
        properties.spec_get("device.form_factor"@) == Some("portable"@) ==> r@ == "tb-radio-symbolic"@,
        properties.spec_get("device.form_factor"@) == Some("car"@) ==> r@ == "tb-car-symbolic"@,
        properties.spec_get("device.form_factor"@) == Some("computer"@) ==> r@ == "tb-device-desktop-symbolic"@,
{
    proof {
        lemma_output_form_factor_icons();
    }
    match output_icon_from_form_factor(properties) {
        Some(icon) => icon,
        None => output_icon_from_name(name, description),
    }
}

/// Icon of an input device: its form factor when it names one, else a guess
/// from its name and description (microphone by default).
pub fn input_device_icon(name: &str, description: &str, properties: &Props) -> (r: &'static str)
    ensures
        r@ == (match properties.spec_get("device.form_factor"@) {
            Some(ff) => match input_form_factor_spec(ff) {
                Some(icon) => icon,
                None => input_name_spec(haystack_spec(name@, description@)),
            },
            None => input_name_spec(haystack_spec(name@, description@)),
        }),
        properties.spec_get("device.form_factor"@) == Some("webcam"@) ==> r@
            == "tb-device-computer-camera-symbolic"@,
        properties.spec_get("device.form_factor"@) == Some("internal"@) ==> r@ == "tb-microphone-symbolic"@,
        properties.spec_get("device.form_factor"@) == Some("microphone"@) ==> r@ == "tb-microphone-symbolic"@,
        properties.spec_get("device.form_factor"@) == Some("headset"@) ==> r@ == "tb-headset-symbolic"@,
        properties.spec_get("device.form_factor"@) == Some("phone"@) ==> r@ == "tb-device-mobile-symbolic"@,
{
    proof {
        lemma_input_form_factor_icons();
    }
    match input_icon_from_form_factor(properties) {
        Some(icon) => icon,
        None => input_icon_from_name(name, description),
    }
}

/// A port of an audio device.
#[derive(Debug)]
pub struct DevicePort {
    pub name: String,
    pub description: String,
}

/// The description of the first port named `active`.
pub open spec fn port_description_spec(ports: Seq<DevicePort>, active: Seq<char>) -> Option<Seq<char>>
    decreases ports.len(),
{
    if ports.len() == 0 {
        None
    } else if ports[0].name@ == active {
        Some(ports[0].description@)
    } else {
        port_description_spec(ports.drop_first(), active)
    }
}

/// The description of the device's active port, if it has one and it is
/// listed.
pub fn active_port_description(active_port: &Option<String>, ports: &Vec<DevicePort>) -> (r: Option<String>)
    ensures
        string_opt_view(r) == (match active_port {
            Some(a) => port_description_spec(ports@, a@),
            None => None,
        }),
{
    let active = match active_port {
        Some(a) => a.as_str(),
        None => return None,
    };
    let mut i: usize = 0;
    assert(ports@.skip(0) =~= ports@);
    while i < ports.len()
        invariant
            i <= ports.len(),
            string_opt_view(*active_port) == Some(active@),
            port_description_spec(ports@, active@) == port_description_spec(ports@.skip(i as int), active@),
        decreases ports.len() - i,
    {
        assert(ports@.skip(i as int).drop_first() =~= ports@.skip(i + 1));
        assert(ports@.skip(i as int)[0] == ports@[i as int]);
        if text_eq(ports[i].name.as_str(), active) {
            let d = ports[i].description.clone();
            assert(port_description_spec(ports@.skip(i as int), active@) == Some(d@));
            return Some(d);
        }
        i = i + 1;
    }
    None
}

} // verus!
