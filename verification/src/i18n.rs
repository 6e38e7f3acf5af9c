//! The strings the application shows: a catalogue lookup, `{placeholder}` substitution, and
//! English behind everything.

use vstd::prelude::*;
use vstd::string::*;

use crate::text::{
    ascii_lower, in_class,
    ascii_lowered, lead, lemma_lead_bounds, replace, replace_all, same_text, to_ascii_lowercase,
    count_lead, CharClass,
};

verus! {

/// English, the fallback for every missing string.
pub const EN: &'static str = "{\"tray.menu.settings\": \"Settings\", \"tray.menu.quit\": \"Quit\", \"tray.tooltip.idle\": \"Dile — hold {hotkey} to dictate\", \"tray.tooltip.recording\": \"Dile — recording; release {hotkey} to stop\", \"tray.tooltip.working\": \"Dile — transcribing\", \"tray.tooltip.nothing\": \"Dile — nothing was heard; hold {hotkey} and speak\", \"tray.tooltip.nomicrophone\": \"Dile — no microphone could be opened\", \"tray.tooltip.preparing\": \"Dile — preparing the speech engine\", \"tray.tooltip.downloading\": \"Dile — downloading the speech model ({percent}%)\", \"tray.tooltip.nomodel\": \"Dile — no speech model, so nothing is transcribed\", \"tray.tooltip.cputier\": \"Dile — CPU tier (GPU probe failed); hold {hotkey} to dictate\", \"tray.tooltip.enginefailed\": \"Dile — the speech engine stopped working\", \"tray.notice.noindicator.title\": \"Dile is running without a tray icon\", \"tray.notice.noindicator.body\": \"This desktop shows no tray icons. Install the AppIndicator extension to see Dile.\", \"dialog.model.title\": \"Download the speech model?\", \"dialog.model.body\": \"Dile needs {model} ({size}) from huggingface.co before it can transcribe.\", \"dialog.model.download\": \"Download\", \"dialog.model.later\": \"Not now\", \"dialog.keyboard.title\": \"Dile cannot read the keyboard\", \"dialog.keyboard.body\": \"The hotkey will not work until Dile is allowed to read keyboard input.\", \"hotkey.key.LeftCtrl\": \"Left Ctrl\", \"hotkey.key.RightCtrl\": \"Right Ctrl\", \"hotkey.key.LeftAlt\": \"Left Alt\", \"hotkey.key.RightAlt\": \"Right Alt\", \"hotkey.key.LeftShift\": \"Left Shift\", \"hotkey.key.RightShift\": \"Right Shift\", \"hotkey.key.LeftMeta\": \"Left Win\", \"hotkey.key.RightMeta\": \"Right Win\", \"panel.state.autopaste.failed\": \"The text could not be typed into the window\", \"panel.state.autopaste.nodevice\": \"This machine has no virtual keyboard to paste with\", \"panel.state.autopaste.nopermission\": \"Dile is not allowed to paste into other windows\", \"settings.title\": \"Dile settings\", \"settings.error.save\": \"The settings could not be saved\", \"settings.error.devices\": \"The microphones could not be listed\", \"settings.error.models\": \"The models could not be listed\", \"settings.error.chord.unreadable\": \"That is not a key Dile can listen for\", \"settings.error.chord.timeout\": \"No key was pressed\", \"settings.error.chord.excluded\": \"That chord belongs to the system\", \"settings.error.chord.nomodifier\": \"A chord needs Ctrl, Alt, Shift or Win\", \"settings.error.dictionary.empty\": \"A dictionary entry needs a term\", \"settings.error.dictionary.duplicate\": \"That term is already in the dictionary\"}";

/// Turkish, written by hand alongside English.
pub const TR: &'static str = "{\"tray.menu.settings\": \"Ayarlar\", \"tray.menu.quit\": \"Çık\", \"tray.tooltip.idle\": \"Dile — dikte için {hotkey} tuşunu basılı tutun\", \"tray.tooltip.recording\": \"Dile — kaydediliyor; bitirmek için {hotkey} tuşunu bırakın\", \"tray.tooltip.working\": \"Dile — yazıya dökülüyor\", \"tray.tooltip.nothing\": \"Dile — hiçbir şey duyulmadı; {hotkey} tuşunu basılı tutup konuşun\", \"tray.tooltip.nomicrophone\": \"Dile — mikrofon açılamadı\", \"tray.tooltip.preparing\": \"Dile — konuşma motoru hazırlanıyor\", \"tray.tooltip.downloading\": \"Dile — konuşma modeli indiriliyor (%{percent})\", \"tray.tooltip.nomodel\": \"Dile — konuşma modeli yok, hiçbir şey yazıya dökülmüyor\", \"tray.tooltip.cputier\": \"Dile — CPU katmanı (GPU denemesi geçmedi); dikte için {hotkey} tuşunu basılı tutun\", \"tray.tooltip.enginefailed\": \"Dile — konuşma motoru çalışmıyor\", \"tray.notice.noindicator.title\": \"Dile tepsi simgesi olmadan çalışıyor\", \"tray.notice.noindicator.body\": \"Bu masaüstü tepsi simgelerini göstermiyor. Dile'yi görmek için AppIndicator uzantısını kurun.\", \"dialog.model.title\": \"Konuşma modeli indirilsin mi?\", \"dialog.model.body\": \"Dile'nin yazıya dökebilmesi için huggingface.co'dan {model} ({size}) gerekiyor.\", \"dialog.model.download\": \"İndir\", \"dialog.model.later\": \"Şimdi değil\", \"dialog.keyboard.title\": \"Dile klavyeyi okuyamıyor\", \"dialog.keyboard.body\": \"Dile'nin klavye girişini okumasına izin verilene kadar kısayol çalışmaz.\", \"hotkey.key.LeftCtrl\": \"Sol Ctrl\", \"hotkey.key.RightCtrl\": \"Sağ Ctrl\", \"hotkey.key.LeftAlt\": \"Sol Alt\", \"hotkey.key.RightAlt\": \"Sağ Alt\", \"hotkey.key.LeftShift\": \"Sol Shift\", \"hotkey.key.RightShift\": \"Sağ Shift\", \"hotkey.key.LeftMeta\": \"Sol Win\", \"hotkey.key.RightMeta\": \"Sağ Win\", \"panel.state.autopaste.failed\": \"Metin pencereye yazılamadı\", \"panel.state.autopaste.nodevice\": \"Bu makinede yapıştırmak için sanal klavye yok\", \"panel.state.autopaste.nopermission\": \"Dile'nin başka pencerelere yapıştırma izni yok\", \"settings.title\": \"Dile ayarları\", \"settings.error.save\": \"Ayarlar kaydedilemedi\", \"settings.error.devices\": \"Mikrofonlar listelenemedi\", \"settings.error.models\": \"Modeller listelenemedi\", \"settings.error.chord.unreadable\": \"Dile bu tuşu dinleyemez\", \"settings.error.chord.timeout\": \"Hiçbir tuşa basılmadı\", \"settings.error.chord.excluded\": \"Bu kısayol sisteme ait\", \"settings.error.chord.nomodifier\": \"Kısayolda Ctrl, Alt, Shift ya da Win olmalı\", \"settings.error.dictionary.empty\": \"Sözlük girdisinin bir terimi olmalı\", \"settings.error.dictionary.duplicate\": \"Bu terim sözlükte zaten var\"}";

/// A catalogue: keys and their texts, as plain values.
pub type Pairs = Seq<(Seq<char>, Seq<char>)>;

/// The pairs of a catalogue, as plain values.
pub open spec fn pairs_view(pairs: Seq<(String, String)>) -> Pairs {
    pairs.map_values(|pair: (String, String)| (pair.0@, pair.1@))
}

/// The pairs `serde_json` reads out of a flat object of strings, or `None` when the text is
/// not such an object.
pub uninterp spec fn json_string_pairs(text: Seq<char>) -> Option<Pairs>;

/// The view of an optional list of pairs.
pub open spec fn optional_pairs_view(pairs: Option<Vec<(String, String)>>) -> Option<Pairs> {
    match pairs {
        Some(pairs) => Some(pairs_view(pairs@)),
        None => None,
    }
}

/// `serde_json::from_str` into a map of strings, whose entries come back as pairs; `None`
/// when the text is not a flat object of strings.
#[verifier::external_body]
fn read_flat_object(text: &str) -> (pairs: Option<Vec<(String, String)>>)
    ensures
        optional_pairs_view(pairs) == json_string_pairs(text@),
{
    match serde_json::from_str::<std::collections::BTreeMap<String, String>>(text) {
        Ok(map) => Some(map.into_iter().collect()),
        Err(_) => None,
    }
}

/// A catalogue's pairs: what the text holds, or nothing when it does not parse.
pub open spec fn parsed(text: Seq<char>) -> Pairs {
    match json_string_pairs(text) {
        Some(pairs) => pairs,
        None => Seq::empty(),
    }
}

/// Parse one catalogue. A file that does not parse is an empty catalogue, never a panic.
pub fn parse(text: &str) -> (pairs: Vec<(String, String)>)
    ensures
        pairs_view(pairs@) == parsed(text@),
{
    match read_flat_object(text) {
        Some(pairs) => pairs,
        None => {
            let empty: Vec<(String, String)> = Vec::new();
            proof {
                assert(pairs_view(empty@) =~= Seq::<(Seq<char>, Seq<char>)>::empty());
            }
            empty
        },
    }
}

/// The text a key has in a catalogue: the first pair that names it.
pub open spec fn lookup(pairs: Pairs, key: Seq<char>) -> Option<Seq<char>>
    decreases pairs.len(),
{
    if pairs.len() == 0 {
        None
    } else if pairs[0].0 == key {
        Some(pairs[0].1)
    } else {
        lookup(pairs.drop_first(), key)
    }
}

/// A lookup in two catalogues one after the other finds the first one's text first.
pub proof fn lemma_lookup_concat(first: Pairs, second: Pairs, key: Seq<char>)
    ensures
        lookup(first + second, key) == match lookup(first, key) {
            Some(text) => Some(text),
            None => lookup(second, key),
        },
    decreases first.len(),
{
    if first.len() > 0 {
        assert((first + second).drop_first() =~= first.drop_first() + second);
        lemma_lookup_concat(first.drop_first(), second, key);
    } else {
        assert(first + second =~= second);
    }
}

/// Where a key first appears in `pairs`, if it does.
fn find(pairs: &Vec<(String, String)>, key: &str) -> (found: Option<usize>)
    ensures
        match found {
            Some(i) => i < pairs@.len() && lookup(pairs_view(pairs@), key@) == Some(
                pairs@[i as int].1@,
            ),
            None => lookup(pairs_view(pairs@), key@) is None,
        },
{
    let ghost all = pairs_view(pairs@);
    let mut i: usize = 0;
    proof {
        assert(all.skip(0) =~= all);
    }
    while i < pairs.len()
        invariant
            i <= pairs@.len(),
            all == pairs_view(pairs@),
            lookup(all, key@) == lookup(all.skip(i as int), key@),
        decreases pairs@.len() - i,
    {
        proof {
            assert(all.skip(i as int).drop_first() =~= all.skip(i + 1));
            assert(all.skip(i as int)[0] == (pairs@[i as int].0@, pairs@[i as int].1@));
        }
        if same_text(pairs[i].0.as_str(), key) {
            return Some(i);
        }
        i += 1;
    }
    proof {
        assert(all.skip(i as int) =~= Seq::<(Seq<char>, Seq<char>)>::empty());
    }
    None
}

/// The source text of a catalogue this build carries.
pub open spec fn source_of(locale: Seq<char>) -> Option<Seq<char>> {
    if locale == "en"@ {
        Some(EN@)
    } else if locale == "tr"@ {
        Some(TR@)
    } else {
        None
    }
}

/// The source text of a catalogue this build carries, or `None`: English and Turkish.
pub fn source(locale: &str) -> (text: Option<&'static str>)
    ensures
        match text {
            Some(text) => source_of(locale@) == Some(text@),
            None => source_of(locale@) is None,
        },
{
    if same_text(locale, "en") {
        Some(EN)
    } else if same_text(locale, "tr") {
        Some(TR)
    } else {
        None
    }
}

/// The primary subtag of a language tag: everything before the first `-` or `_`, in ASCII
/// lower case.
pub open spec fn primary_of(locale: Seq<char>) -> Seq<char> {
    ascii_lowered(locale.take(lead(locale, CharClass::NotTagSeparator) as int))
}

/// The primary subtag of a language tag: `tr-TR` and `TR_tr` both become `tr`.
pub fn primary_subtag(locale: &str) -> (primary: String)
    ensures
        primary@ == primary_of(locale@),
{
    let k = count_lead(locale, CharClass::NotTagSeparator);
    proof {
        lemma_lead_bounds(locale@, CharClass::NotTagSeparator);
    }
    let head = locale.substring_char(0, k);
    to_ascii_lowercase(head)
}

/// Every character of a run of one class makes the whole text its front run.
proof fn lemma_lead_whole(s: Seq<char>, class: CharClass)
    requires
        forall|j: int| 0 <= j < s.len() ==> in_class(class, #[trigger] s[j]),
    ensures
        lead(s, class) == s.len(),
    decreases s.len(),
{
    if s.len() > 0 {
        assert forall|j: int| 0 <= j < s.drop_first().len() implies in_class(
            class,
            #[trigger] s.drop_first()[j],
        ) by {
            assert(s.drop_first()[j] == s[j + 1]);
        }
        lemma_lead_whole(s.drop_first(), class);
    }
}

/// A primary subtag is the tag's head, lowered: it holds no `-` or `_`, it is already in
/// ASCII lower case, it begins the lowered tag, and it is its own primary subtag.
pub proof fn lemma_primary_subtag_shape(locale: Seq<char>)
    ensures
        forall|i: int|
            0 <= i < primary_of(locale).len() ==> #[trigger] primary_of(locale)[i] != '-'
                && primary_of(locale)[i] != '_',
        ascii_lowered(primary_of(locale)) == primary_of(locale),
        primary_of(locale).len() <= locale.len(),
        ascii_lowered(locale).take(primary_of(locale).len() as int) == primary_of(locale),
        primary_of(primary_of(locale)) == primary_of(locale),
{
    let k = lead(locale, CharClass::NotTagSeparator);
    lemma_lead_bounds(locale, CharClass::NotTagSeparator);
    let head = locale.take(k as int);
    let r = primary_of(locale);
    assert(r == ascii_lowered(head));
    assert forall|i: int| 0 <= i < r.len() implies #[trigger] r[i] != '-' && r[i] != '_' by {
        assert(r[i] == ascii_lower(head[i]));
        assert(head[i] == locale[i]);
        assert(in_class(CharClass::NotTagSeparator, locale[i]));
    }
    assert forall|i: int| 0 <= i < r.len() implies #[trigger] ascii_lower(r[i]) == r[i] by {
        assert(r[i] == ascii_lower(head[i]));
        let c = head[i];
        if 'A' <= c && c <= 'Z' {
            assert((c as u32) + 32 >= 'a' as u32);
            assert(!('A' <= ascii_lower(c) && ascii_lower(c) <= 'Z'));
        }
    }
    assert(ascii_lowered(r) =~= r);
    assert(ascii_lowered(locale).take(k as int) =~= r);
    assert forall|j: int| 0 <= j < r.len() implies in_class(
        CharClass::NotTagSeparator,
        #[trigger] r[j],
    ) by {
    }
    lemma_lead_whole(r, CharClass::NotTagSeparator);
    assert(r.take(r.len() as int) =~= r);
}

/// The placeholder for a parameter: its name in braces.
pub open spec fn braced(name: Seq<char>) -> Seq<char> {
    seq!['{'] + name + seq!['}']
}

/// A template with each parameter's placeholder replaced, in the order the parameters come.
pub open spec fn interpolated(template: Seq<char>, params: Pairs) -> Seq<char>
    decreases params.len(),
{
    if params.len() == 0 {
        template
    } else {
        replace_all(
            interpolated(template, params.drop_last()),
            braced(params.last().0),
            params.last().1,
        )
    }
}

/// The parameters of a call, as plain values.
pub open spec fn params_view(params: Seq<(&str, &str)>) -> Pairs {
    params.map_values(|param: (&str, &str)| (param.0@, param.1@))
}

/// Replace `{name}` with the matching parameter; a placeholder with no parameter is left as
/// written.
pub fn interpolate(template: &str, params: &[(&str, &str)]) -> (out: String)
    ensures
        out@ == interpolated(template@, params_view(params@)),
{
    let mut out = String::from_str(template);
    let mut i: usize = 0;
    while i < params.len()
        invariant
            i <= params@.len(),
            out@ == interpolated(template@, params_view(params@.subrange(0, i as int))),
        decreases params@.len() - i,
    {
        let (name, value) = params[i];
        let mut placeholder = String::from_str("{");
        placeholder.append(name);
        placeholder.append("}");
        proof {
            reveal_strlit("{");
            reveal_strlit("}");
            assert(placeholder@ =~= braced(name@));
            let done = params_view(params@.subrange(0, i + 1));
            assert(done.drop_last() =~= params_view(params@.subrange(0, i as int)));
            assert(done.last() == (name@, value@));
        }
        out = replace(out.as_str(), placeholder.as_str(), value);
        i += 1;
    }
    proof {
        assert(params@.subrange(0, params@.len() as int) =~= params@);
    }
    out
}

/// The language a locale setting lands on: the primary subtag when the machine named one,
/// and English when it did not.
pub open spec fn locale_from_spec(found: Option<Seq<char>>) -> Seq<char> {
    match found {
        Some(tag) => if primary_of(tag).len() > 0 {
            primary_of(tag)
        } else {
            "en"@
        },
        None => "en"@,
    }
}

/// `sys_locale::get_locale`, the language the operating system is set to. Nothing is
/// claimed of what comes back: it is whatever the machine says.
#[verifier::external_body]
fn os_locale() -> (locale: Option<String>) {
    sys_locale::get_locale()
}

/// The language a machine's own answer names, or `"en"` when it will not say.
pub fn locale_from(found: Option<String>) -> (locale: String)
    ensures
        locale@ == locale_from_spec(match found {
            Some(tag) => Some(tag@),
            None => None,
        }),
{
    match found {
        Some(tag) => {
            let primary = primary_subtag(tag.as_str());
            if primary.as_str().unicode_len() > 0 {
                primary
            } else {
                String::from_str("en")
            }
        },
        None => String::from_str("en"),
    }
}

/// The language the operating system is set to, as a primary subtag, or `"en"`.
pub fn system_locale() -> (locale: String)
    ensures
        exists|found: Option<Seq<char>>| locale@ == locale_from_spec(found),
{
    let found = os_locale();
    let ghost seen = match &found {
        Some(tag) => Some(tag@),
        None => None,
    };
    let locale = locale_from(found);
    proof {
        assert(locale@ == locale_from_spec(seen));
    }
    locale
}

/// The strings of one language, with English behind them.
#[derive(Debug)]
pub struct Strings {
    locale: String,
    messages: Vec<(String, String)>,
    fallback: Vec<(String, String)>,
}

/// The language a tag lands on: its primary subtag when this build carries it, else English.
pub open spec fn landed_locale(tag: Seq<char>) -> Seq<char> {
    if source_of(primary_of(tag)) is Some {
        primary_of(tag)
    } else {
        "en"@
    }
}

/// The catalogue a tag loads in front of English: Turkish's pairs for Turkish, nothing else.
pub open spec fn landed_messages(tag: Seq<char>) -> Pairs {
    if primary_of(tag) == "tr"@ {
        parsed(TR@)
    } else {
        Seq::empty()
    }
}

/// A string of a catalogue: the chosen language, then English, then the key itself.
pub open spec fn template_of(messages: Pairs, fallback: Pairs, key: Seq<char>) -> Seq<char> {
    match lookup(messages, key) {
        Some(text) => text,
        None => match lookup(fallback, key) {
            Some(text) => text,
            None => key,
        },
    }
}

/// The pairs of `pairs` whose keys `shadow` does not have.
pub open spec fn unshadowed(pairs: Pairs, shadow: Pairs) -> Pairs
    decreases pairs.len(),
{
    if pairs.len() == 0 {
        pairs
    } else {
        let before = unshadowed(pairs.drop_last(), shadow);
        if lookup(shadow, pairs.last().0) is Some {
            before
        } else {
            before.push(pairs.last())
        }
    }
}

/// Removing the keys another catalogue has changes no lookup of a key it does not have, and
/// finds nothing for a key it has.
pub proof fn lemma_unshadowed_lookup(pairs: Pairs, shadow: Pairs, key: Seq<char>)
    ensures
        lookup(unshadowed(pairs, shadow), key) == if lookup(shadow, key) is Some {
            None
        } else {
            lookup(pairs, key)
        },
    decreases pairs.len(),
{
    if pairs.len() > 0 {
        let rest = pairs.drop_last();
        let last = pairs.last();
        lemma_unshadowed_lookup(rest, shadow, key);
        assert(pairs =~= rest + seq![last]);
        lemma_lookup_concat(rest, seq![last], key);
        assert(seq![last].drop_first() =~= Seq::<(Seq<char>, Seq<char>)>::empty());
        assert(lookup(seq![last].drop_first(), key) is None);
        assert(lookup(seq![last], key) == if last.0 == key { Some(last.1) } else { None::<Seq<char>> });
        if last.0 == key {
            assert(lookup(shadow, last.0) == lookup(shadow, key));
        }
        if lookup(shadow, last.0) is None {
            lemma_lookup_concat(unshadowed(rest, shadow), seq![last], key);
            assert(unshadowed(rest, shadow).push(last) =~= unshadowed(rest, shadow) + seq![last]);
        }
    }
}

impl Strings {
    /// The language this catalogue is in, as a primary subtag.
    pub closed spec fn locale_spec(&self) -> Seq<char> {
        self.locale@
    }

    /// The chosen language's pairs.
    pub closed spec fn messages_spec(&self) -> Pairs {
        pairs_view(self.messages@)
    }

    /// English's pairs, behind the chosen language.
    pub closed spec fn fallback_spec(&self) -> Pairs {
        pairs_view(self.fallback@)
    }

    /// A catalogue made of the given pairs.
    pub fn from_parts(
        locale: String,
        messages: Vec<(String, String)>,
        fallback: Vec<(String, String)>,
    ) -> (strings: Strings)
        ensures
            strings.locale_spec() == locale@,
            strings.messages_spec() == pairs_view(messages@),
            strings.fallback_spec() == pairs_view(fallback@),
    {
        Strings { locale, messages, fallback }
    }

    /// The catalogue for a language tag such as `tr`, `tr-TR` or `en-GB`; a language this
    /// build does not carry is English.
    pub fn for_locale(locale: &str) -> (strings: Strings)
        ensures
            strings.locale_spec() == landed_locale(locale@),
            strings.messages_spec() == landed_messages(locale@),
            strings.fallback_spec() == parsed(EN@),
    {
        let primary = primary_subtag(locale);
        let known = source(primary.as_str());
        let is_english = same_text(primary.as_str(), "en");
        proof {
            reveal_strlit("en");
            reveal_strlit("tr");
        }
        let (locale, messages) = match known {
            Some(text) => if is_english {
                let empty: Vec<(String, String)> = Vec::new();
                proof {
                    assert(primary@[0] != "tr"@[0]);
                    assert(pairs_view(empty@) =~= landed_messages(locale@));
                }
                (primary, empty)
            } else {
                let pairs = parse(text);
                proof {
                    assert(primary@ == "tr"@);
                    assert(pairs_view(pairs@) == landed_messages(locale@));
                }
                (primary, pairs)
            },
            None => {
                let empty: Vec<(String, String)> = Vec::new();
                proof {
                    assert(pairs_view(empty@) =~= landed_messages(locale@));
                }
                (String::from_str("en"), empty)
            },
        };
        proof {
            assert(pairs_view(Seq::<(String, String)>::empty()) =~= Seq::<(Seq<char>, Seq<char>)>::empty());
        }
        Strings { locale, messages, fallback: parse(EN) }
    }

    /// The language the operating system is set to; always one this build carries.
    pub fn system() -> (strings: Strings)
        ensures
            exists|found: Option<Seq<char>>|
                #![trigger locale_from_spec(found)]
                strings.locale_spec() == landed_locale(locale_from_spec(found))
                    && strings.messages_spec() == landed_messages(locale_from_spec(found)),
            strings.locale_spec() == "en"@ || strings.locale_spec() == "tr"@,
            strings.fallback_spec() == parsed(EN@),
    {
        let locale = system_locale();
        let ghost found = choose|found: Option<Seq<char>>| locale@ == locale_from_spec(found);
        let strings = Strings::for_locale(locale.as_str());
        proof {
            reveal_strlit("en");
            reveal_strlit("tr");
            assert(strings.locale_spec() == landed_locale(locale_from_spec(found))
                && strings.messages_spec() == landed_messages(locale_from_spec(found)));
        }
        strings
    }

    /// The language the user asked for, falling back to the operating system's.
    pub fn for_setting(tag: Option<&str>) -> (strings: Strings)
        ensures
            tag is Some ==> strings.locale_spec() == landed_locale(tag->0@)
                && strings.messages_spec() == landed_messages(tag->0@),
            tag is None ==> strings.locale_spec() == "en"@ || strings.locale_spec() == "tr"@,
            tag is None ==> exists|found: Option<Seq<char>>|
                #![trigger locale_from_spec(found)]
                strings.locale_spec() == landed_locale(locale_from_spec(found))
                    && strings.messages_spec() == landed_messages(locale_from_spec(found)),
            strings.fallback_spec() == parsed(EN@),
    {
        match tag {
            Some(tag) => Strings::for_locale(tag),
            None => Strings::system(),
        }
    }

    /// The language this catalogue is in, as a primary subtag.
    pub fn locale(&self) -> (locale: &str)
        ensures
            locale@ == self.locale_spec(),
    {
        self.locale.as_str()
    }

    /// One string as written: the chosen language, then English, then the key itself.
    pub fn template(&self, key: &str) -> (text: String)
        ensures
            text@ == template_of(self.messages_spec(), self.fallback_spec(), key@),
    {
        match find(&self.messages, key) {
            Some(i) => self.messages[i].1.clone(),
            None => match find(&self.fallback, key) {
                Some(i) => self.fallback[i].1.clone(),
                None => String::from_str(key),
            },
        }
    }

    /// One string, with no placeholders in it.
    pub fn text(&self, key: &str) -> (text: String)
        ensures
            text@ == template_of(self.messages_spec(), self.fallback_spec(), key@),
    {
        self.template(key)
    }

    /// One string, with its placeholders filled.
    pub fn format(&self, key: &str, params: &[(&str, &str)]) -> (text: String)
        ensures
            text@ == interpolated(
                template_of(self.messages_spec(), self.fallback_spec(), key@),
                params_view(params@),
            ),
    {
        let template = self.template(key);
        interpolate(template.as_str(), params)
    }

    /// Every string of this language with English behind it: each key once, with the
    /// chosen language's text where it has one.
    pub fn all(&self) -> (all: Vec<(String, String)>)
        ensures
            forall|key: Seq<char>|
                #[trigger] lookup(pairs_view(all@), key) == match lookup(self.messages_spec(), key) {
                    Some(text) => Some(text),
                    None => lookup(self.fallback_spec(), key),
                },
    {
        let mut all: Vec<(String, String)> = Vec::new();
        let mut i: usize = 0;
        while i < self.messages.len()
            invariant
                i <= self.messages@.len(),
                pairs_view(all@) == pairs_view(self.messages@.subrange(0, i as int)),
            decreases self.messages@.len() - i,
        {
            let pair = (self.messages[i].0.clone(), self.messages[i].1.clone());
            let ghost before = all@;
            all.push(pair);
            proof {
                assert(pairs_view(all@) =~= pairs_view(before).push((pair.0@, pair.1@)));
                assert(pairs_view(self.messages@.subrange(0, i + 1)) =~= pairs_view(
                    self.messages@.subrange(0, i as int),
                ).push((self.messages@[i as int].0@, self.messages@[i as int].1@)));
            }
            i += 1;
        }
        proof {
            assert(self.messages@.subrange(0, self.messages@.len() as int) =~= self.messages@);
        }
        let ghost front = pairs_view(all@);
        let mut j: usize = 0;
        while j < self.fallback.len()
            invariant
                j <= self.fallback@.len(),
                front == self.messages_spec(),
                pairs_view(all@) == front + unshadowed(
                    pairs_view(self.fallback@.subrange(0, j as int)),
                    front,
                ),
            decreases self.fallback@.len() - j,
        {
            let ghost seen = pairs_view(self.fallback@.subrange(0, j as int));
            let ghost next = pairs_view(self.fallback@.subrange(0, j + 1));
            proof {
                assert(next.drop_last() =~= seen);
                assert(next.last() == (self.fallback@[j as int].0@, self.fallback@[j as int].1@));
            }
            let shadowed = find(&self.messages, self.fallback[j].0.as_str());
            if shadowed.is_none() {
                let pair = (self.fallback[j].0.clone(), self.fallback[j].1.clone());
                let ghost before = all@;
                all.push(pair);
                proof {
                    assert(pairs_view(all@) =~= pairs_view(before).push(next.last()));
                    assert(front + unshadowed(next, front) =~= (front + unshadowed(seen, front)).push(
                        next.last(),
                    ));
                }
            }
            j += 1;
        }
        proof {
            assert(self.fallback@.subrange(0, self.fallback@.len() as int) =~= self.fallback@);
            assert forall|key: Seq<char>| #[trigger]
                lookup(pairs_view(all@), key) == match lookup(self.messages_spec(), key) {
                    Some(text) => Some(text),
                    None => lookup(self.fallback_spec(), key),
                } by {
                lemma_lookup_concat(front, unshadowed(self.fallback_spec(), front), key);
                lemma_unshadowed_lookup(self.fallback_spec(), front, key);
            }
        }
        all
    }
}

/// The catalogue key that names a lone modifier.
pub const KEY_PREFIX: &'static str = "hotkey.key.";

/// The label a trigger gets: a lone modifier by its catalogue name when there is one, and
/// anything else exactly as its parser wrote it back.
pub open spec fn trigger_label_of(strings: Strings, written: Seq<char>, is_lone_key: bool) -> Seq<char> {
    let key = KEY_PREFIX@ + written;
    let text = template_of(strings.messages_spec(), strings.fallback_spec(), key);
    if is_lone_key && text != key {
        text
    } else {
        written
    }
}

/// The trigger as a person reads it, given the trigger as its parser wrote it back and
/// whether it is a lone key.
pub fn trigger_label(strings: &Strings, written: &str, is_lone_key: bool) -> (label: String)
    ensures
        label@ == trigger_label_of(*strings, written@, is_lone_key),
{
    if is_lone_key {
        let mut key = String::from_str(KEY_PREFIX);
        key.append(written);
        let text = strings.text(key.as_str());
        if !(text == key) {
            return text;
        }
    }
    String::from_str(written)
}

} // verus!
