//! Key combinations: from a settings string such as "ctrl+alt+space" to a
//! hotkey and a label for it.
//!
//! The `global-hotkey` crate knows the keys and the usual modifier names. On top
//! of it this module accepts `meta` for `super` and `opt` for `alt`, and offers
//! a fallback for a string that is no combination.

use global_hotkey::hotkey;
use vstd::prelude::*;

use crate::text::{self, join, same, split_on, string_of, to_ascii_uppercase, to_chars, trim};

verus! {

/// The modifiers that a combination can hold.
#[derive(Debug, Clone, Copy, PartialEq, Eq, Structural)]
pub struct Modifiers {
    pub control: bool,
    pub alt: bool,
    pub shift: bool,
    /// Cmd on macOS, the Windows key elsewhere.
    pub sup: bool,
}

/// One key with its modifiers.
#[derive(Debug, Clone, PartialEq, Eq)]
pub struct HotKey {
    pub mods: Modifiers,
    /// The name of the physical key, such as "Space", "KeyD" or "F8".
    pub key: String,
    /// The number by which the platform reports the hotkey.
    pub id: u32,
}

/// What a [`HotKey`] holds.
pub open spec fn hotkey_model(h: HotKey) -> (Modifiers, Seq<char>, u32) {
    (h.mods, h.key@, h.id)
}

/// A parse result, the texts taken as what they hold.
pub open spec fn hotkey_outcome(r: Result<HotKey, String>) -> Result<
    (Modifiers, Seq<char>, u32),
    Seq<char>,
> {
    match r {
        Ok(h) => Ok(hotkey_model(h)),
        Err(m) => Err(m@),
    }
}

/// A parse result with its label, the texts taken as what they hold.
pub open spec fn labelled_outcome(r: Result<(HotKey, String), String>) -> Result<
    ((Modifiers, Seq<char>, u32), Seq<char>),
    Seq<char>,
> {
    match r {
        Ok((h, label)) => Ok((hotkey_model(h), label@)),
        Err(m) => Err(m@),
    }
}

// ---- What the platform's crates compute ------------------------------------

/// What `global_hotkey::hotkey::HotKey::from_str` makes of `text`, on macOS or
/// elsewhere: the modifiers, the name of the key and the number of the hotkey,
/// or the text of the error.
pub uninterp spec fn hotkey_parsed(text: Seq<char>, on_macos: bool) -> Result<
    (Modifiers, Seq<char>, u32),
    Seq<char>,
>;

/// What `str::to_uppercase` makes of a text.
pub uninterp spec fn unicode_upper(s: Seq<char>) -> Seq<char>;

/// Whether one of the pieces of `text` between plus signs is a modifier whose
/// meaning depends on the platform.
pub open spec fn names_platform_modifier(text: Seq<char>) -> bool {
    exists|i: int|
        0 <= i < text::pieces(text, '+').len() && is_platform_token(#[trigger] text::pieces(text, '+')[i])
}

/// Whether a piece is one of the modifiers that stand for Cmd on macOS and for
/// Ctrl elsewhere.
pub open spec fn is_platform_token(piece: Seq<char>) -> bool {
    let token = uppercased(text::trimmed(piece));
    ||| token == "COMMANDORCONTROL"@
    ||| token == "COMMANDORCTRL"@
    ||| token == "CMDORCTRL"@
    ||| token == "CMDORCONTROL"@
}

/// `str::parse::<global_hotkey::hotkey::HotKey>`, the fields taken out of its
/// result and the error taken as its text. The result depends on the text and on
/// whether this is macOS; without one of the four modifiers that stand for Cmd or
/// Ctrl by platform it depends on the text alone.
#[verifier::external_body]
fn parse_combo(text: &str) -> (r: Result<HotKey, String>)
    ensures
        hotkey_outcome(r) == hotkey_parsed(text@, true) || hotkey_outcome(r) == hotkey_parsed(
            text@,
            false,
        ),
        !names_platform_modifier(text@) ==> hotkey_outcome(r) == hotkey_parsed(text@, false)
            && hotkey_outcome(r) == hotkey_parsed(text@, true),
{
    let hk = text.parse::<hotkey::HotKey>().map_err(|e| e.to_string())?;
    Ok(HotKey {
        mods: Modifiers {
            control: hk.mods.contains(hotkey::Modifiers::CONTROL),
            alt: hk.mods.contains(hotkey::Modifiers::ALT),
            shift: hk.mods.contains(hotkey::Modifiers::SHIFT),
            sup: hk.mods.contains(hotkey::Modifiers::SUPER),
        },
        key: hk.key.to_string(),
        id: hk.id,
    })
}

/// `global_hotkey::hotkey::HotKey::new` for Ctrl, Alt and the space bar. The
/// number is the modifiers' bits (Alt 1, Ctrl 8) shifted by 16, joined with the
/// place of `Space` among the codes.
#[verifier::external_body]
fn default_hotkey() -> (r: HotKey)
    ensures
        hotkey_model(r) == default_combo(),
{
    let mods = hotkey::Modifiers::CONTROL | hotkey::Modifiers::ALT;
    let hk = hotkey::HotKey::new(Some(mods), hotkey::Code::Space);
    HotKey {
        mods: Modifiers {
            control: hk.mods.contains(hotkey::Modifiers::CONTROL),
            alt: hk.mods.contains(hotkey::Modifiers::ALT),
            shift: hk.mods.contains(hotkey::Modifiers::SHIFT),
            sup: hk.mods.contains(hotkey::Modifiers::SUPER),
        },
        key: hk.key.to_string(),
        id: hk.id,
    }
}

/// `str::to_uppercase`.
#[verifier::external_body]
fn std_uppercase(s: &str) -> (r: String)
    ensures
        r@ == unicode_upper(s@),
{
    s.to_uppercase()
}

/// The combination that stands in for an unusable one: Ctrl+Alt+Space.
pub open spec fn default_combo() -> (Modifiers, Seq<char>, u32) {
    (
        Modifiers { control: true, alt: true, shift: false, sup: false },
        "Space"@,
        589886,
    )
}

// ---- Normal form -----------------------------------------------------------

/// `s` in upper case: the ASCII letters, and then whatever else has a case.
pub open spec fn uppercased(s: Seq<char>) -> Seq<char> {
    let u = text::upper(s);
    if vstd::utf8::is_ascii_chars(u) {
        u
    } else {
        unicode_upper(u)
    }
}

fn uppercase(s: &str) -> (r: String)
    ensures
        r@ == uppercased(s@),
{
    let u = to_ascii_uppercase(s);
    if u.as_str().is_ascii() {
        u
    } else {
        std_uppercase(u.as_str())
    }
}

/// One piece of a combination in normal form: without surrounding white space,
/// in upper case, and by the name that the hotkey crate knows.
pub open spec fn normal_token(piece: Seq<char>) -> Seq<char> {
    let token = uppercased(text::trimmed(piece));
    if token == "META"@ {
        "SUPER"@
    } else if token == "OPT"@ {
        "ALT"@
    } else {
        token
    }
}

/// A combination in normal form: each piece, with plus signs between them.
pub open spec fn normal_form(raw: Seq<char>) -> Seq<char> {
    text::joined(text::pieces(raw, '+').map_values(|p: Seq<char>| normal_token(p)), "+"@)
}

fn normalise_token(piece: &str) -> (r: String)
    ensures
        r@ == normal_token(piece@),
        ({
            let u = uppercased(text::trimmed(piece@));
            u != "META"@ && u != "OPT"@ ==> r@ == u
        }),
{
    let token = uppercase(trim(piece));
    if same(token.as_str(), "META") {
        "SUPER".to_owned()
    } else if same(token.as_str(), "OPT") {
        "ALT".to_owned()
    } else {
        token
    }
}

fn normalise(raw: &str) -> (r: String)
    ensures
        r@ == normal_form(raw@),
{
    let parts = split_on(raw, '+');
    let mut out: Vec<String> = Vec::new();
    let mut i: usize = 0;
    while i < parts.len()
        invariant
            i <= parts@.len(),
            out@.len() == i,
            forall|k: int| 0 <= k < i ==> (#[trigger] out@[k])@ == normal_token(parts@[k]@),
        decreases parts@.len() - i,
    {
        out.push(normalise_token(parts[i].as_str()));
        i = i + 1;
    }
    assert(text::views(out@) =~= text::views(parts@).map_values(|p: Seq<char>| normal_token(p)));
    join(&out, "+")
}

// ---- Labels ----------------------------------------------------------------

/// The name of a key as the user sees it: letters without "Key" in front.
pub open spec fn key_label(key: Seq<char>) -> Seq<char> {
    if key.len() >= 3 && key.take(3) == "Key"@ {
        key.skip(3)
    } else {
        key
    }
}

/// The parts of a label, in the order in which they are shown.
pub open spec fn label_parts(mods: Modifiers, key: Seq<char>) -> Seq<Seq<char>> {
    let none = Seq::<Seq<char>>::empty();
    (if mods.control {
        seq!["Ctrl"@]
    } else {
        none
    }) + (if mods.alt {
        seq!["Alt"@]
    } else {
        none
    }) + (if mods.shift {
        seq!["Shift"@]
    } else {
        none
    }) + (if mods.sup {
        seq!["Cmd"@]
    } else {
        none
    }) + seq![key_label(key)]
}

/// The label of a combination, such as "Ctrl+Alt+Space".
pub open spec fn label_of(mods: Modifiers, key: Seq<char>) -> Seq<char> {
    text::joined(label_parts(mods, key), "+"@)
}

fn strip_key(key: &str) -> (r: String)
    ensures
        r@ == key_label(key@),
{
    let v = to_chars(key);
    proof {
        reveal_strlit("Key");
    }
    if v.len() >= 3 && v[0] == 'K' && v[1] == 'e' && v[2] == 'y' {
        assert(key@.take(3) =~= "Key"@);
        assert(key@.skip(3) =~= key@.subrange(3, key@.len() as int));
        string_of(&v, 3, v.len())
    } else {
        assert(key@.len() >= 3 && key@.take(3) == "Key"@ ==> key@[0] == key@.take(3)[0] && key@[1]
            == key@.take(3)[1] && key@[2] == key@.take(3)[2]);
        key.to_owned()
    }
}

/// The label of a hotkey, such as "Ctrl+Alt+Space".
pub fn hotkey_label(hk: &HotKey) -> (r: String)
    ensures
        r@ == label_of(hk.mods, hk.key@),
{
    let mut parts: Vec<String> = Vec::new();
    if hk.mods.control {
        parts.push("Ctrl".to_owned());
    }
    if hk.mods.alt {
        parts.push("Alt".to_owned());
    }
    if hk.mods.shift {
        parts.push("Shift".to_owned());
    }
    if hk.mods.sup {
        parts.push("Cmd".to_owned());
    }
    parts.push(strip_key(hk.key.as_str()));
    assert(text::views(parts@) =~= label_parts(hk.mods, hk.key@));
    join(&parts, "+")
}

// ---- Parsing ---------------------------------------------------------------

/// A parsed combination with its label, or the error.
pub open spec fn labelled(parsed: Result<(Modifiers, Seq<char>, u32), Seq<char>>) -> Result<
    ((Modifiers, Seq<char>, u32), Seq<char>),
    Seq<char>,
> {
    match parsed {
        Ok(h) => Ok((h, label_of(h.0, h.1))),
        Err(m) => Err(m),
    }
}

/// A parsed combination with its label, or the default one.
pub open spec fn labelled_or_default(
    parsed: Result<(Modifiers, Seq<char>, u32), Seq<char>>,
) -> ((Modifiers, Seq<char>, u32), Seq<char>) {
    match parsed {
        Ok(h) => (h, label_of(h.0, h.1)),
        Err(_) => (default_combo(), "Ctrl+Alt+Space"@),
    }
}

/// The combination with its label, or the error.
pub fn with_label(parsed: Result<HotKey, String>) -> (r: Result<(HotKey, String), String>)
    ensures
        labelled_outcome(r) == labelled(hotkey_outcome(parsed)),
{
    match parsed {
        Ok(hk) => {
            let label = hotkey_label(&hk);
            Ok((hk, label))
        },
        Err(m) => Err(m),
    }
}

/// The combination with its label, or Ctrl+Alt+Space.
pub fn or_default(parsed: Result<(HotKey, String), String>) -> (r: (HotKey, String))
    ensures
        match labelled_outcome(parsed) {
            Ok(p) => (hotkey_model(r.0), r.1@) == p,
            Err(_) => hotkey_model(r.0) == default_combo() && r.1@ == "Ctrl+Alt+Space"@,
        },
{
    match parsed {
        Ok(p) => p,
        Err(_) => (default_hotkey(), "Ctrl+Alt+Space".to_owned()),
    }
}

/// Whether `raw` names a modifier whose meaning depends on the platform.
pub open spec fn platform_dependent(raw: Seq<char>) -> bool {
    names_platform_modifier(normal_form(raw))
}

/// Whether `outcome` is what trying `raw` comes to. For a combination that depends
/// on the platform it is what one of the platforms makes of it.
pub open spec fn is_tried(
    raw: Seq<char>,
    outcome: Result<((Modifiers, Seq<char>, u32), Seq<char>), Seq<char>>,
) -> bool {
    let on_macos = outcome == labelled(hotkey_parsed(normal_form(raw), true));
    let elsewhere = outcome == labelled(hotkey_parsed(normal_form(raw), false));
    &&& on_macos || elsewhere
    &&& !platform_dependent(raw) ==> on_macos && elsewhere
}

/// Whether `combo` is what reading `raw` comes to, with Ctrl+Alt+Space in place of
/// an error.
pub open spec fn is_read(
    raw: Seq<char>,
    combo: ((Modifiers, Seq<char>, u32), Seq<char>),
) -> bool {
    let on_macos = combo == labelled_or_default(hotkey_parsed(normal_form(raw), true));
    let elsewhere = combo == labelled_or_default(hotkey_parsed(normal_form(raw), false));
    &&& on_macos || elsewhere
    &&& !platform_dependent(raw) ==> on_macos && elsewhere
}

/// Whether `hotkey` is what reading `raw` comes to, whatever its label.
pub open spec fn is_read_as(raw: Seq<char>, hotkey: (Modifiers, Seq<char>, u32)) -> bool {
    exists|label: Seq<char>| #[trigger] is_read(raw, (hotkey, label))
}

/// Reads a combination such as "ctrl+alt+space".
///
/// Modifiers are `ctrl`/`control`, `alt`/`option`/`opt`,
/// `cmd`/`command`/`super`/`meta` and `shift`, in any case.
pub fn try_parse_ptt_key(raw: &str) -> (r: Result<(HotKey, String), String>)
    ensures
        is_tried(raw@, labelled_outcome(r)),
{
    let normalized = normalise(raw);
    with_label(parse_combo(normalized.as_str()))
}

/// Reads a combination as [`try_parse_ptt_key`] does, with Ctrl+Alt+Space in
/// place of an error.
pub fn parse_ptt_key(raw: &str) -> (r: (HotKey, String))
    ensures
        is_read(raw@, (hotkey_model(r.0), r.1@)),
{
    or_default(try_parse_ptt_key(raw))
}

// ---- Laws ------------------------------------------------------------------

/// Whether two pieces name the same modifier or key: they are the same but for
/// white space around them and the case of ASCII letters, or one is the alias of
/// the other.
pub open spec fn same_name(p: Seq<char>, q: Seq<char>) -> bool {
    let a = text::upper(text::trimmed(p));
    let b = text::upper(text::trimmed(q));
    ||| a == b
    ||| are_aliases(a, b)
    ||| are_aliases(b, a)
}

/// Whether `a` is another name for `b`.
pub open spec fn are_aliases(a: Seq<char>, b: Seq<char>) -> bool {
    (a == "META"@ && b == "SUPER"@) || (a == "OPT"@ && b == "ALT"@)
}

/// Whether two combinations are the same but for how their pieces are spelled.
pub open spec fn same_but_for_spelling(a: Seq<char>, b: Seq<char>) -> bool {
    &&& text::pieces(a, '+').len() == text::pieces(b, '+').len()
    &&& forall|i: int|
        0 <= i < text::pieces(a, '+').len() ==> same_name(
            #[trigger] text::pieces(a, '+')[i],
            text::pieces(b, '+')[i],
        )
}

/// Combinations that differ only in how their pieces are spelled (ASCII case, white
/// space around them, aliases) come to the same hotkey and label, or to the same
/// error: on each platform what is made of one is what is made of the other, so a
/// result of trying one is a result of trying the other. Without a modifier whose
/// meaning depends on the platform there is only one such result.
pub proof fn spelling_is_immaterial(a: Seq<char>, b: Seq<char>)
    requires
        same_but_for_spelling(a, b),
    ensures
        normal_form(a) == normal_form(b),
        forall|on_macos: bool| #[trigger]
            labelled(hotkey_parsed(normal_form(a), on_macos)) == labelled(
                hotkey_parsed(normal_form(b), on_macos),
            ),
        forall|outcome| #[trigger] is_tried(a, outcome) <==> is_tried(b, outcome),
        forall|combo| #[trigger] is_read(a, combo) <==> is_read(b, combo),
        !platform_dependent(a) ==> forall|x, y|
            #![trigger is_tried(a, x), is_tried(b, y)]
            is_tried(a, x) && is_tried(b, y) ==> x == y,
{
    let p = text::pieces(a, '+');
    let q = text::pieces(b, '+');
    assert forall|i: int| 0 <= i < p.len() implies normal_token(#[trigger] p[i]) == normal_token(
        q[i],
    ) by {
        lemma_same_name(p[i], q[i]);
    }
    assert(p.map_values(|p: Seq<char>| normal_token(p)) =~= q.map_values(
        |p: Seq<char>| normal_token(p),
    ));
}

proof fn lemma_same_name(p: Seq<char>, q: Seq<char>)
    requires
        same_name(p, q),
    ensures
        normal_token(p) == normal_token(q),
{
    reveal_strlit("META");
    reveal_strlit("SUPER");
    reveal_strlit("OPT");
    reveal_strlit("ALT");
    assert(vstd::utf8::is_ascii_chars("META"@));
    assert(vstd::utf8::is_ascii_chars("SUPER"@));
    assert(vstd::utf8::is_ascii_chars("OPT"@));
    assert(vstd::utf8::is_ascii_chars("ALT"@));
    assert("SUPER"@.len() != "META"@.len());
    assert("SUPER"@.len() != "OPT"@.len());
    assert("ALT"@[0] != "OPT"@[0]);
    assert("ALT"@.len() != "META"@.len());
    assert("OPT"@.len() != "META"@.len());
}

proof fn lemma_upper_char(c: char)
    ensures
        text::is_white(text::upper_char(c)) == text::is_white(c),
        text::upper_char(c) == '+' <==> c == '+',
{
}

proof fn lemma_upper_trim_front(s: Seq<char>)
    ensures
        text::trim_front(text::upper(s)) == text::upper(text::trim_front(s)),
    decreases s.len(),
{
    if s.len() > 0 {
        lemma_upper_char(s[0]);
        assert(text::upper(s)[0] == text::upper_char(s[0]));
        assert(text::upper(s).drop_first() =~= text::upper(s.drop_first()));
        if text::is_white(s[0]) {
            lemma_upper_trim_front(s.drop_first());
        }
    }
}

proof fn lemma_upper_trim_back(s: Seq<char>)
    ensures
        text::trim_back(text::upper(s)) == text::upper(text::trim_back(s)),
    decreases s.len(),
{
    if s.len() > 0 {
        lemma_upper_char(s.last());
        assert(text::upper(s).last() == text::upper_char(s.last()));
        assert(text::upper(s).drop_last() =~= text::upper(s.drop_last()));
        if text::is_white(s.last()) {
            lemma_upper_trim_back(s.drop_last());
        }
    }
}

proof fn lemma_upper_pieces(s: Seq<char>)
    ensures
        text::pieces(text::upper(s), '+') == text::pieces(s, '+').map_values(
            |p: Seq<char>| text::upper(p),
        ),
        text::pieces(s, '+').len() > 0,
    decreases s.len(),
{
    let map = |p: Seq<char>| text::upper(p);
    assert(text::upper(Seq::<char>::empty()) =~= Seq::<char>::empty());
    if s.len() == 0 {
        assert(text::upper(s) =~= Seq::<char>::empty());
    } else {
        let front = s.drop_last();
        lemma_upper_char(s.last());
        lemma_upper_pieces(front);
        assert(text::upper(s).last() == text::upper_char(s.last()));
        assert(text::upper(s).drop_last() =~= text::upper(front));
        let fp = text::pieces(front, '+');
        let up = text::pieces(text::upper(front), '+');
        if s.last() != '+' {
            assert(up.last() == text::upper(fp.last()));
            assert(text::upper(fp.last()).push(text::upper_char(s.last())) =~= text::upper(
                fp.last().push(s.last()),
            ));
        }
    }
    assert(text::pieces(text::upper(s), '+') =~= text::pieces(s, '+').map_values(map));
}

/// Changing the case of ASCII letters changes nothing but the spelling; see
/// [`spelling_is_immaterial`].
pub proof fn case_is_immaterial(a: Seq<char>, b: Seq<char>)
    requires
        text::upper(a) == text::upper(b),
    ensures
        same_but_for_spelling(a, b),
{
    lemma_upper_pieces(a);
    lemma_upper_pieces(b);
    let p = text::pieces(a, '+');
    let q = text::pieces(b, '+');
    let up = text::pieces(text::upper(a), '+');
    assert(p.len() == up.len() && q.len() == up.len());
    assert forall|i: int| 0 <= i < p.len() implies same_name(#[trigger] p[i], q[i]) by {
        assert(up[i] == text::upper(p[i]));
        assert(up[i] == text::upper(q[i]));
        lemma_upper_trim_front(p[i]);
        lemma_upper_trim_back(text::trim_front(p[i]));
        lemma_upper_trim_front(q[i]);
        lemma_upper_trim_back(text::trim_front(q[i]));
    }
}

/// Blanks put around a piece change nothing but its spelling.
pub proof fn blanks_are_immaterial(before: Seq<char>, piece: Seq<char>, after: Seq<char>)
    requires
        text::is_blank(before),
        text::is_blank(after),
    ensures
        same_name(before + piece + after, piece),
{
    text::blanks_around_are_trimmed(before, piece, after);
}

/// However they are spelled, `meta` names the same modifier as `super`, and `opt`
/// the same as `alt`.
pub proof fn alias_is_immaterial(p: Seq<char>, q: Seq<char>)
    requires
        are_aliases(text::upper(text::trimmed(p)), text::upper(text::trimmed(q))),
    ensures
        same_name(p, q) && same_name(q, p),
        normal_token(p) == normal_token(q),
{
    lemma_same_name(p, q);
}

/// An ASCII text is in upper case when each of its letters is; of another text the
/// rest is left to the standard library.
pub proof fn upper_case_is_that_of_the_letters(s: Seq<char>)
    ensures
        vstd::utf8::is_ascii_chars(s) ==> uppercased(s) == text::upper(s),
        !vstd::utf8::is_ascii_chars(s) ==> uppercased(s) == unicode_upper(text::upper(s)),
{
    assert(vstd::utf8::is_ascii_chars(s) == vstd::utf8::is_ascii_chars(text::upper(s))) by {
        assert forall|i: int| 0 <= i < s.len() implies (s[i] as int <= 127) == (text::upper(
            s,
        )[i] as int <= 127) by {}
        if vstd::utf8::is_ascii_chars(s) {
            assert forall|i: int| 0 <= i < text::upper(s).len() implies '\0' <= #[trigger] text::upper(
                s,
            )[i] <= '\u{7f}' by {
                assert('\0' <= s[i] <= '\u{7f}');
            }
        }
        if vstd::utf8::is_ascii_chars(text::upper(s)) {
            assert forall|i: int| 0 <= i < s.len() implies '\0' <= #[trigger] s[i] <= '\u{7f}' by {
                assert('\0' <= text::upper(s)[i] <= '\u{7f}');
            }
        }
    }
}

/// Only `meta` and `opt` are renamed, to the names that the hotkey crate has for
/// them; every other piece is handed on in upper case, without the white space
/// around it, under its own name.
pub proof fn a_piece_keeps_its_name(p: Seq<char>)
    ensures
        ({
            let u = uppercased(text::trimmed(p));
            &&& u == "META"@ ==> normal_token(p) == "SUPER"@
            &&& u == "OPT"@ ==> normal_token(p) == "ALT"@
            &&& u != "META"@ && u != "OPT"@ ==> normal_token(p) == u
        }),
{
    lemma_names();
}

proof fn lemma_names()
    ensures
        "META"@ != "OPT"@ && "META"@ != "SUPER"@ && "META"@ != "ALT"@ && "OPT"@ != "SUPER"@
            && "OPT"@ != "ALT"@ && "SUPER"@ != "ALT"@,
        vstd::utf8::is_ascii_chars("META"@) && vstd::utf8::is_ascii_chars("OPT"@)
            && vstd::utf8::is_ascii_chars("SUPER"@) && vstd::utf8::is_ascii_chars("ALT"@),
        !"SUPER"@.contains('+') && !"ALT"@.contains('+'),
{
    reveal_strlit("META");
    reveal_strlit("SUPER");
    reveal_strlit("OPT");
    reveal_strlit("ALT");
    assert("ALT"@[0] != "OPT"@[0]);
    assert("SUPER"@.len() == 5 && "META"@.len() == 4 && "OPT"@.len() == 3 && "ALT"@.len() == 3);
}

proof fn lemma_trimmed_is_ascii(p: Seq<char>)
    requires
        vstd::utf8::is_ascii_chars(p),
    ensures
        vstd::utf8::is_ascii_chars(text::trimmed(p)),
{
    text::laws::trimming_takes_off_white_space_alone(p);
    let (a, b) = choose|a: int, b: int|
        #![trigger p.subrange(a, b)]
        0 <= a <= b <= p.len() && text::trimmed(p) == p.subrange(a, b);
    assert forall|i: int| 0 <= i < text::trimmed(p).len() implies '\0' <= #[trigger] text::trimmed(
        p,
    )[i] <= '\u{7f}' by {
        assert(text::trimmed(p)[i] == p[a + i]);
    }
}

/// Two ASCII pieces are told apart exactly if they name different modifiers or keys.
pub proof fn names_are_told_apart(p: Seq<char>, q: Seq<char>)
    requires
        vstd::utf8::is_ascii_chars(p),
        vstd::utf8::is_ascii_chars(q),
    ensures
        normal_token(p) == normal_token(q) <==> same_name(p, q),
{
    lemma_names();
    lemma_trimmed_is_ascii(p);
    lemma_trimmed_is_ascii(q);
    upper_case_is_that_of_the_letters(text::trimmed(p));
    upper_case_is_that_of_the_letters(text::trimmed(q));
}

proof fn lemma_piece_of_ascii(s: Seq<char>, sep: char)
    requires
        vstd::utf8::is_ascii_chars(s),
    ensures
        forall|i: int|
            0 <= i < text::pieces(s, sep).len() ==> vstd::utf8::is_ascii_chars(
                #[trigger] text::pieces(s, sep)[i],
            ),
        text::pieces(s, sep).len() > 0,
    decreases s.len(),
{
    if s.len() > 0 {
        let front = s.drop_last();
        assert forall|i: int| 0 <= i < front.len() implies '\0' <= #[trigger] front[i]
            <= '\u{7f}' by {
            assert(front[i] == s[i]);
        }
        lemma_piece_of_ascii(front, sep);
        let before = text::pieces(front, sep);
        assert('\0' <= s[s.len() - 1] <= '\u{7f}');
        assert forall|i: int|
            0 <= i < text::pieces(s, sep).len() implies vstd::utf8::is_ascii_chars(
            #[trigger] text::pieces(s, sep)[i],
        ) by {
            if i < before.len() {
                assert(vstd::utf8::is_ascii_chars(before[i]));
            }
            if s.last() != sep && i == before.len() - 1 {
                let last = before[before.len() - 1];
                assert(text::pieces(s, sep)[i] == last.push(s.last()));
                assert forall|k: int| 0 <= k < last.push(s.last()).len() implies '\0'
                    <= #[trigger] last.push(s.last())[k] <= '\u{7f}' by {
                    if k < last.len() {
                        assert('\0' <= last[k] <= '\u{7f}');
                    }
                }
            }
        }
    }
}

proof fn lemma_token_has_no_plus(p: Seq<char>)
    requires
        vstd::utf8::is_ascii_chars(p),
        !p.contains('+'),
    ensures
        !normal_token(p).contains('+'),
{
    lemma_names();
    lemma_trimmed_is_ascii(p);
    let t = text::trimmed(p);
    upper_case_is_that_of_the_letters(t);
    text::laws::trimming_takes_off_white_space_alone(p);
    let (a, b) = choose|a: int, b: int|
        #![trigger p.subrange(a, b)]
        0 <= a <= b <= p.len() && t == p.subrange(a, b);
    assert forall|i: int| 0 <= i < text::upper(t).len() implies #[trigger] text::upper(t)[i]
        != '+' by {
        assert(t[i] == p[a + i]);
        lemma_upper_char(t[i]);
    }
}

/// Each piece of an ASCII combination stays in its place: none is lost, added or
/// moved, and each is handed on by its name.
pub proof fn pieces_stay_in_place(raw: Seq<char>)
    requires
        vstd::utf8::is_ascii_chars(raw),
    ensures
        text::pieces(normal_form(raw), '+').len() == text::pieces(raw, '+').len(),
        forall|i: int|
            0 <= i < text::pieces(raw, '+').len() ==> #[trigger] text::pieces(
                normal_form(raw),
                '+',
            )[i] == normal_token(text::pieces(raw, '+')[i]),
{
    let p = text::pieces(raw, '+');
    let list = p.map_values(|p: Seq<char>| normal_token(p));
    lemma_piece_of_ascii(raw, '+');
    text::laws::pieces_make_up_the_text(raw, '+');
    assert forall|i: int| 0 <= i < list.len() implies !(#[trigger] list[i]).contains('+') by {
        assert(vstd::utf8::is_ascii_chars(p[i]));
        lemma_token_has_no_plus(p[i]);
    }
    reveal_strlit("+");
    assert("+"@ =~= seq!['+']);
    text::laws::joined_pieces_come_apart(list, '+');
}

/// The label of a key alone is the key's, a letter's without "Key" in front; each
/// modifier that is held puts its own name and a plus sign before what follows it.
pub proof fn labels_name_what_is_held(mods: Modifiers, key: Seq<char>, letter: Seq<char>)
    ensures
        label_of(
            Modifiers { control: false, alt: false, shift: false, sup: false },
            "Key"@ + letter,
        ) == letter,
        !"Key"@.is_prefix_of(key) ==> label_of(
            Modifiers { control: false, alt: false, shift: false, sup: false },
            key,
        ) == key,
        mods.control ==> label_of(mods, key) == "Ctrl"@ + "+"@ + label_of(
            Modifiers { control: false, ..mods },
            key,
        ),
        !mods.control && mods.alt ==> label_of(mods, key) == "Alt"@ + "+"@ + label_of(
            Modifiers { alt: false, ..mods },
            key,
        ),
        !mods.control && !mods.alt && mods.shift ==> label_of(mods, key) == "Shift"@ + "+"@
            + label_of(Modifiers { shift: false, ..mods }, key),
        !mods.control && !mods.alt && !mods.shift && mods.sup ==> label_of(mods, key) == "Cmd"@
            + "+"@ + label_of(Modifiers { sup: false, ..mods }, key),
{
    let none = Modifiers { control: false, alt: false, shift: false, sup: false };
    reveal_strlit("Key");
    let named = "Key"@ + letter;
    assert(named.take(3) =~= "Key"@);
    assert(named.skip(3) =~= letter);
    assert(label_parts(none, named) =~= seq![letter]);
    if !"Key"@.is_prefix_of(key) {
        if key.len() >= 3 && key.take(3) == "Key"@ {
            assert("Key"@ =~= key.subrange(0, 3));
        }
        assert(label_parts(none, key) =~= seq![key]);
    }
    if mods.control {
        lemma_label("Ctrl"@, mods, Modifiers { control: false, ..mods }, key);
    } else if mods.alt {
        lemma_label("Alt"@, mods, Modifiers { alt: false, ..mods }, key);
    } else if mods.shift {
        lemma_label("Shift"@, mods, Modifiers { shift: false, ..mods }, key);
    } else if mods.sup {
        lemma_label("Cmd"@, mods, Modifiers { sup: false, ..mods }, key);
    }
}

proof fn lemma_label(name: Seq<char>, mods: Modifiers, rest: Modifiers, key: Seq<char>)
    requires
        label_parts(mods, key) =~= seq![name] + label_parts(rest, key),
    ensures
        label_of(mods, key) == name + "+"@ + label_of(rest, key),
{
    text::laws::joining_goes_piece_by_piece(seq![name], label_parts(rest, key), "+"@, name);
    assert(text::joined(seq![name], "+"@) == name);
}

/// What the hotkey crate makes of a combination is what is used, with its label, and
/// its error is the error; only where it makes nothing of it does Ctrl+Alt+Space, with
/// its own label, stand in.
pub proof fn what_was_parsed_is_used(parsed: Result<(Modifiers, Seq<char>, u32), Seq<char>>)
    ensures
        parsed matches Ok(h) ==> labelled_or_default(parsed).0 == h && (labelled(parsed) matches Ok(
            l,
        ) && l.0 == h && l.1 == label_of(h.0, h.1) && labelled_or_default(parsed) == l),
        parsed matches Err(m) ==> labelled(parsed) == Err::<
            ((Modifiers, Seq<char>, u32), Seq<char>),
            Seq<char>,
        >(m),
        parsed is Err ==> ({
            let (h, label) = labelled_or_default(parsed);
            &&& h.0.control && h.0.alt && !h.0.shift && !h.0.sup
            &&& h.1 == "Space"@
            &&& label == label_of(h.0, h.1)
        }),
{
    let h = default_combo();
    let none = Modifiers { control: false, alt: false, shift: false, sup: false };
    let alt = Modifiers { control: false, alt: true, shift: false, sup: false };
    reveal_strlit("Key");
    reveal_strlit("Space");
    reveal_strlit("Ctrl");
    reveal_strlit("Alt");
    reveal_strlit("+");
    reveal_strlit("Ctrl+Alt+Space");
    assert("Key"@[0] != "Space"@[0]);
    labels_name_what_is_held(h.0, h.1, h.1);
    labels_name_what_is_held(alt, h.1, h.1);
    labels_name_what_is_held(none, h.1, h.1);
    assert("Ctrl+Alt+Space"@ =~= "Ctrl"@ + "+"@ + ("Alt"@ + "+"@ + "Space"@));
}

/// A combination means one thing on every platform unless one of its pieces is a name
/// for Cmd or Ctrl by platform.
pub proof fn most_combinations_mean_the_same_everywhere(raw: Seq<char>)
    requires
        vstd::utf8::is_ascii_chars(raw),
    ensures
        platform_dependent(raw) ==> exists|i: int|
            0 <= i < text::pieces(raw, '+').len() && ({
                let u = text::upper(text::trimmed(#[trigger] text::pieces(raw, '+')[i]));
                u == "COMMANDORCONTROL"@ || u == "COMMANDORCTRL"@ || u == "CMDORCTRL"@ || u
                    == "CMDORCONTROL"@
            }),
{
    if platform_dependent(raw) {
        let n = text::pieces(normal_form(raw), '+');
        let i = choose|i: int| 0 <= i < n.len() && is_platform_token(#[trigger] n[i]);
        pieces_stay_in_place(raw);
        lemma_piece_of_ascii(raw, '+');
        let p = text::pieces(raw, '+')[i];
        assert(n[i] == normal_token(p));
        lemma_names();
        lemma_trimmed_is_ascii(p);
        let t = text::trimmed(p);
        upper_case_is_that_of_the_letters(t);
        let u = text::upper(t);
        lemma_upper_is_stable(p);
        if u == "META"@ || u == "OPT"@ {
            reveal_strlit("COMMANDORCONTROL");
            reveal_strlit("COMMANDORCTRL");
            reveal_strlit("CMDORCTRL");
            reveal_strlit("CMDORCONTROL");
            reveal_strlit("SUPER");
            reveal_strlit("ALT");
            text::laws::trimming_takes_off_white_space_alone(n[i]);
            let v = text::trimmed(n[i]);
            upper_case_is_that_of_the_letters(v);
            lemma_trimmed_is_ascii(n[i]);
            assert(uppercased(v).len() <= 5);
        } else {
            upper_case_is_that_of_the_letters(u);
            assert(vstd::utf8::is_ascii_chars(u)) by {
                assert forall|k: int| 0 <= k < u.len() implies '\0' <= #[trigger] u[k]
                    <= '\u{7f}' by {
                    assert('\0' <= t[k] <= '\u{7f}');
                }
            }
        }
    }
}

proof fn lemma_upper_is_stable(p: Seq<char>)
    ensures
        text::trimmed(text::upper(text::trimmed(p))) == text::upper(text::trimmed(p)),
        text::upper(text::upper(text::trimmed(p))) == text::upper(text::trimmed(p)),
{
    let t = text::trimmed(p);
    lemma_upper_trim_front(t);
    lemma_upper_trim_back(text::trim_front(t));
    text::trimmed_is_stable(p);
    assert(text::upper(text::upper(t)) =~= text::upper(t));
}

/// What is known of a hotkey is its modifiers, its key and its number.
pub proof fn hotkeys_are_told_apart(a: HotKey, b: HotKey)
    ensures
        hotkey_model(a) == hotkey_model(b) <==> a.mods == b.mods && a.key@ == b.key@ && a.id
            == b.id,
        hotkey_outcome(Ok(a)) == Ok::<(Modifiers, Seq<char>, u32), Seq<char>>(hotkey_model(a)),
{
}

/// Trying a combination gives what the hotkey crate makes of its normal form; reading
/// it gives the same, with Ctrl+Alt+Space in place of an error.
pub proof fn reading_is_trying_with_a_fallback(
    raw: Seq<char>,
    tried: Result<((Modifiers, Seq<char>, u32), Seq<char>), Seq<char>>,
    read: ((Modifiers, Seq<char>, u32), Seq<char>),
)
    requires
        is_tried(raw, tried),
        is_read(raw, read),
    ensures
        exists|on_macos: bool|
            match #[trigger] hotkey_parsed(normal_form(raw), on_macos) {
                Ok(h) => tried matches Ok(c) && c.0 == h && c.1 == label_of(h.0, h.1),
                Err(m) => tried matches Err(e) && e == m,
            },
        !platform_dependent(raw) ==> (tried matches Ok(c) ==> read == c),
        !platform_dependent(raw) && tried is Err ==> read.0.1 == "Space"@ && read.0.0.control
            && read.0.0.alt && !read.0.0.shift && !read.0.0.sup && read.1 == "Ctrl+Alt+Space"@,
{
    let there = hotkey_parsed(normal_form(raw), true);
    let here = hotkey_parsed(normal_form(raw), false);
    assert(tried == labelled(there) || tried == labelled(here));
}

} // verus!
