//! Delivering text at the cursor, and capturing the selection.
//!
//! Both go through simulated input. This module decides which keys to press and
//! what to make of the clipboard; the caller presses and reads.

use vstd::prelude::*;

use crate::config::prefixed;
use crate::text::{self, blank, same, to_ascii_lowercase, trim};

verus! {

/// Milliseconds between two looks at the clipboard after a simulated copy.
pub const COPY_POLL_INTERVAL_MS: u64 = 20;

/// How often the clipboard is looked at before a simulated copy is given up.
pub const COPY_POLL_ATTEMPTS: u32 = 25;

/// How text reaches the focused application.
#[derive(Debug, Clone, Copy, PartialEq, Eq, Structural, Default)]
pub enum InjectMode {
    /// Press the paste keys; the clipboard already holds the text.
    #[default]
    Paste,
    /// Type the text.
    Type,
}

/// The mode that a settings value names; an unknown value means `Paste`.
pub open spec fn mode_named(s: Seq<char>) -> InjectMode {
    let name = text::lower(text::trimmed(s));
    if name == "type"@ || name == "typing"@ || name == "keystroke"@ {
        InjectMode::Type
    } else {
        InjectMode::Paste
    }
}

impl InjectMode {
    /// The mode that a settings value names; an unknown value means `Paste`.
    pub fn from_config(s: &str) -> (r: InjectMode)
        ensures
            r == mode_named(s@),
    {
        let name = to_ascii_lowercase(trim(s));
        if same(name.as_str(), "type") || same(name.as_str(), "typing") || same(
            name.as_str(),
            "keystroke",
        ) {
            InjectMode::Type
        } else {
            InjectMode::Paste
        }
    }
}

/// Why text could not be delivered or captured.
#[derive(Debug, PartialEq, Eq)]
pub enum InjectError {
    /// The input backend could not be initialised.
    Init(String),
    /// A simulated key failed.
    Inject(String),
    /// The clipboard could not be accessed.
    Clipboard(String),
}

/// What an [`InjectError`] says to the user.
pub open spec fn inject_error_text(e: InjectError) -> Seq<char> {
    match e {
        InjectError::Init(m) => "input backend init failed (grant Accessibility?): "@ + m@,
        InjectError::Inject(m) => "injection failed: "@ + m@,
        InjectError::Clipboard(m) => "clipboard access failed: "@ + m@,
    }
}

impl InjectError {
    /// What this error says to the user.
    pub fn message(&self) -> (r: String)
        ensures
            r@ == inject_error_text(*self),
    {
        match self {
            InjectError::Init(m) => prefixed(
                "input backend init failed (grant Accessibility?): ",
                m.as_str(),
            ),
            InjectError::Inject(m) => prefixed("injection failed: ", m.as_str()),
            InjectError::Clipboard(m) => prefixed("clipboard access failed: ", m.as_str()),
        }
    }
}

// ---- Keys ------------------------------------------------------------------

/// One simulated key event. The modifier is Cmd on macOS and Ctrl elsewhere.
#[derive(Debug, Clone, Copy, PartialEq, Eq, Structural)]
pub enum Stroke {
    PressModifier,
    Click(char),
    ReleaseModifier,
}

/// The events of a modifier chord on `c`.
pub open spec fn chord(c: char) -> Seq<Stroke> {
    seq![Stroke::PressModifier, Stroke::Click(c), Stroke::ReleaseModifier]
}

fn chord_on(c: char) -> (r: Vec<Stroke>)
    ensures
        r@ == chord(c),
{
    let mut r: Vec<Stroke> = Vec::new();
    r.push(Stroke::PressModifier);
    r.push(Stroke::Click(c));
    r.push(Stroke::ReleaseModifier);
    assert(r@ =~= chord(c));
    r
}

/// The events of the paste chord, Cmd+V or Ctrl+V.
pub fn paste() -> (r: Vec<Stroke>)
    ensures
        r@ == chord('v'),
{
    chord_on('v')
}

/// The events of the copy chord, Cmd+C or Ctrl+C.
pub fn copy() -> (r: Vec<Stroke>)
    ensures
        r@ == chord('c'),
{
    chord_on('c')
}

/// What to do to deliver a text.
#[derive(Debug, PartialEq, Eq)]
pub enum Delivery {
    /// Press these keys, in order, up to the first that fails.
    Keys(Vec<Stroke>),
    /// Type this text.
    Text(String),
}

/// What to do to deliver `text` in a mode. In `Paste` mode the clipboard has to
/// hold the text already.
pub fn deliver(text: &str, mode: InjectMode) -> (r: Delivery)
    ensures
        match mode {
            InjectMode::Paste => r matches Delivery::Keys(k) && k@ == chord('v'),
            InjectMode::Type => r matches Delivery::Text(t) && t@ == text@,
        },
{
    match mode {
        InjectMode::Paste => Delivery::Keys(paste()),
        InjectMode::Type => Delivery::Text(text.to_owned()),
    }
}

// ---- Polling the clipboard -------------------------------------------------

/// Whether a clipboard text shows that a simulated copy has landed: it is not
/// blank and differs from what was there before.
pub open spec fn is_fresh(prior: Option<Seq<char>>, read: Option<Seq<char>>) -> bool {
    read matches Some(t) && !text::is_blank(t) && prior != Some(t)
}

/// What an optional string holds.
pub open spec fn opt(s: Option<String>) -> Option<Seq<char>> {
    match s {
        Some(t) => Some(t@),
        None => None,
    }
}

/// The first fresh text among the first `attempts` reads, if there is one.
pub open spec fn first_fresh(
    prior: Option<Seq<char>>,
    reads: Seq<Option<Seq<char>>>,
    attempts: nat,
) -> Option<Seq<char>>
    decreases reads.len(),
{
    if attempts == 0 || reads.len() == 0 {
        None
    } else if is_fresh(prior, reads[0]) {
        reads[0]
    } else {
        first_fresh(prior, reads.drop_first(), (attempts - 1) as nat)
    }
}

/// What a list of reads holds.
pub open spec fn reads_view(reads: Seq<Option<String>>) -> Seq<Option<Seq<char>>> {
    reads.map_values(|r: Option<String>| opt(r))
}

fn fresh(prior: &Option<String>, read: &Option<String>) -> (r: bool)
    ensures
        r == is_fresh(opt(*prior), opt(*read)),
        r <==> match *read {
            Some(t) => !text::is_blank(t@) && match *prior {
                Some(p) => p@ != t@,
                None => true,
            },
            None => false,
        },
{
    match read {
        None => false,
        Some(t) => {
            if blank(t.as_str()) {
                false
            } else {
                match prior {
                    Some(p) => !same(p.as_str(), t.as_str()),
                    None => true,
                }
            }
        },
    }
}

/// The first fresh text among the first `attempts` of `reads`, the contents of
/// the clipboard at successive looks (`None` where it held no text).
pub fn poll_clipboard(prior: &Option<String>, attempts: u32, reads: &Vec<Option<String>>) -> (r:
    Option<String>)
    ensures
        opt(r) == first_fresh(opt(*prior), reads_view(reads@), attempts as nat),
        attempts > 0 && reads@.len() > 0 ==> (reads@[0] matches Some(t) ==> !text::is_blank(t@)
            && opt(*prior) != Some(t@) ==> opt(r) == Some(t@)),
{
    let mut left: u32 = attempts;
    let mut i: usize = 0;
    let ghost all = reads_view(reads@);
    assert(all.skip(0) =~= all);
    while left > 0 && i < reads.len()
        invariant
            all == reads_view(reads@),
            i <= reads@.len(),
            first_fresh(opt(*prior), all, attempts as nat) == first_fresh(
                opt(*prior),
                all.skip(i as int),
                left as nat,
            ),
        decreases reads@.len() - i,
    {
        assert(all.skip(i as int)[0] == opt(reads@[i as int]));
        assert(all.skip(i as int).drop_first() =~= all.skip(i + 1));
        if fresh(prior, &reads[i]) {
            return reads[i].clone();
        }
        left = left - 1;
        i = i + 1;
    }
    None
}

// ---- Capturing the selection -----------------------------------------------

/// A capture of the selection under way.
#[derive(Debug, PartialEq, Eq)]
pub struct CopySelection {
    /// What was on the clipboard before.
    pub prior: Option<String>,
    /// How often the clipboard may still be looked at.
    pub left: u32,
}

/// What a capture of the selection asks for next.
#[derive(Debug, PartialEq, Eq)]
pub enum CopyStep {
    /// Press the copy chord, then report with [`CopySelection::fired`].
    Fire(CopySelection),
    /// Wait, look at the clipboard, then report with [`CopySelection::looked`].
    Look(CopySelection),
    /// The capture is over. `restore` is to be put back on the clipboard.
    End { selection: Option<String>, restore: Option<String> },
}

/// Begins to capture the selection. `clipboard` is the clipboard's text
/// (`None` inside where it holds none), or `None` if it is not available.
pub fn copy_selection(clipboard: Option<Option<String>>) -> (r: CopyStep)
    ensures
        match clipboard {
            None => r matches CopyStep::End { selection, restore } && selection is None
                && restore is None,
            Some(prior) => r == CopyStep::Fire(
                CopySelection { prior, left: COPY_POLL_ATTEMPTS },
            ),
        },
{
    match clipboard {
        None => CopyStep::End { selection: None, restore: None },
        Some(prior) => CopyStep::Fire(CopySelection { prior, left: COPY_POLL_ATTEMPTS }),
    }
}

/// How a capture goes on once the clipboard was looked at: it ends with a fresh
/// text or when the attempts are used up, and otherwise asks for another look.
pub open spec fn after_look(c: CopySelection, read: Option<String>) -> CopyStep {
    if is_fresh(opt(c.prior), opt(read)) {
        CopyStep::End { selection: read, restore: c.prior }
    } else if c.left == 1 {
        CopyStep::End { selection: None, restore: c.prior }
    } else {
        CopyStep::Look(CopySelection { prior: c.prior, left: (c.left - 1) as u32 })
    }
}

impl CopySelection {
    /// Goes on once the copy chord was pressed, with success or not. Keys that
    /// failed end the capture, with the clipboard as it was.
    pub fn fired(self, pressed: bool) -> (r: CopyStep)
        ensures
            pressed && self.left > 0 ==> r == CopyStep::Look(self),
            pressed && self.left == 0 ==> r == (CopyStep::End {
                selection: None,
                restore: self.prior,
            }),
            !pressed ==> r == (CopyStep::End { selection: None, restore: None }),
    {
        if !pressed {
            CopyStep::End { selection: None, restore: None }
        } else if self.left == 0 {
            CopyStep::End { selection: None, restore: self.prior }
        } else {
            CopyStep::Look(self)
        }
    }

    /// Goes on once the clipboard was looked at.
    pub fn looked(self, read: Option<String>) -> (r: CopyStep)
        requires
            self.left > 0,
        ensures
            r == after_look(self, read),
            read matches Some(t) ==> !text::is_blank(t@) && opt(self.prior) != Some(t@) ==> r == (
            CopyStep::End { selection: read, restore: self.prior }),
    {
        if fresh(&self.prior, &read) {
            CopyStep::End { selection: read, restore: self.prior }
        } else if self.left == 1 {
            CopyStep::End { selection: None, restore: self.prior }
        } else {
            CopyStep::Look(CopySelection { prior: self.prior, left: self.left - 1 })
        }
    }
}

// ---- Laws ------------------------------------------------------------------

/// What polling finds was read, is not blank and is new; if it finds nothing,
/// none of the reads within the budget was fresh.
pub proof fn poll_finds_only_fresh_text(
    prior: Option<Seq<char>>,
    reads: Seq<Option<Seq<char>>>,
    attempts: nat,
)
    ensures
        match first_fresh(prior, reads, attempts) {
            Some(t) => is_fresh(prior, Some(t)) && reads.contains(Some(t)),
            None => forall|i: int|
                0 <= i < reads.len() && i < attempts ==> !is_fresh(prior, #[trigger] reads[i]),
        },
    decreases reads.len(),
{
    if attempts > 0 && reads.len() > 0 {
        if is_fresh(prior, reads[0]) {
            assert(reads.contains(reads[0]));
        } else {
            let rest = reads.drop_first();
            poll_finds_only_fresh_text(prior, rest, (attempts - 1) as nat);
            match first_fresh(prior, rest, (attempts - 1) as nat) {
                Some(t) => {
                    let w = choose|w: int| 0 <= w < rest.len() && rest[w] == Some(t);
                    assert(reads[w + 1] == Some(t));
                },
                None => {
                    assert forall|i: int| 0 <= i < reads.len() && i < attempts implies !is_fresh(
                        prior,
                        #[trigger] reads[i],
                    ) by {
                        if i > 0 {
                            assert(rest[i - 1] == reads[i]);
                        }
                    }
                },
            }
        }
    }
}

/// What a capture comes to, given what is read at its looks, one after the other.
pub open spec fn after_looks(c: CopySelection, reads: Seq<Option<String>>) -> CopyStep
    decreases reads.len(),
{
    if reads.len() == 0 {
        CopyStep::Look(c)
    } else {
        match after_look(c, reads[0]) {
            CopyStep::Look(next) => after_looks(next, reads.drop_first()),
            over => over,
        }
    }
}

/// A capture of the selection is over after as many looks as it has left, at the
/// latest. It comes to the first fresh text, and whether or not there was one, the
/// user's clipboard is put back as it was.
pub proof fn capture_ends_and_restores(c: CopySelection, reads: Seq<Option<String>>)
    requires
        c.left > 0,
        reads.len() >= c.left,
    ensures
        after_looks(c, reads) matches CopyStep::End { selection, restore } && restore == c.prior
            && opt(selection) == first_fresh(opt(c.prior), reads_view(reads), c.left as nat),
    decreases reads.len(),
{
    let views = reads_view(reads);
    assert(views[0] == opt(reads[0]));
    assert(views.drop_first() =~= reads_view(reads.drop_first()));
    if !is_fresh(opt(c.prior), opt(reads[0])) {
        if c.left > 1 {
            let next = CopySelection { prior: c.prior, left: (c.left - 1) as u32 };
            capture_ends_and_restores(next, reads.drop_first());
        } else {
            assert(first_fresh(opt(c.prior), views.drop_first(), 0) is None);
        }
    }
}

/// A single look more never changes what has been found.
pub proof fn poll_result_is_stable(
    prior: Option<Seq<char>>,
    reads: Seq<Option<Seq<char>>>,
    more: Seq<Option<Seq<char>>>,
    attempts: nat,
)
    requires
        first_fresh(prior, reads, attempts) is Some,
    ensures
        first_fresh(prior, reads + more, attempts) == first_fresh(prior, reads, attempts),
    decreases reads.len(),
{
    assert((reads + more)[0] == reads[0]);
    if !is_fresh(prior, reads[0]) {
        assert((reads + more).drop_first() =~= reads.drop_first() + more);
        poll_result_is_stable(prior, reads.drop_first(), more, (attempts - 1) as nat);
    }
}

/// The first text that is not blank and differs from what was on the clipboard before
/// is taken, whatever it holds and however long it is; nothing else ever is.
pub proof fn any_new_text_is_the_selection(
    prior: Option<Seq<char>>,
    t: Seq<char>,
    later: Seq<Option<Seq<char>>>,
    attempts: nat,
)
    requires
        attempts > 0,
    ensures
        !text::is_blank(t) && prior != Some(t) ==> first_fresh(
            prior,
            seq![Some(t)] + later,
            attempts,
        ) == Some(t),
        first_fresh(prior, seq![Some(t)], 1) == Some(t) <==> (exists|i: int|
            0 <= i < t.len() && !text::is_white(#[trigger] t[i])) && prior != Some(t),
        first_fresh(prior, seq![None::<Seq<char>>], 1) is None,
{
    let reads = seq![Some(t)];
    assert((reads + later)[0] == Some(t));
    assert(reads.drop_first().len() == 0);
    reveal_with_fuel(first_fresh, 2);
}

/// A read that is not taken is passed over: the others decide, with one attempt less.
pub proof fn stale_reads_are_passed_over(
    prior: Option<Seq<char>>,
    stale: Option<Seq<char>>,
    later: Seq<Option<Seq<char>>>,
    attempts: nat,
)
    requires
        attempts > 0,
        stale matches Some(t) ==> text::is_blank(t) || prior == Some(t),
    ensures
        first_fresh(prior, seq![stale] + later, attempts) == first_fresh(
            prior,
            later,
            (attempts - 1) as nat,
        ),
        first_fresh(prior, later, 0) is None,
{
    let reads = seq![stale] + later;
    assert(reads[0] == stale);
    assert(reads.drop_first() =~= later);
}

/// A look at the clipboard takes any text that is not blank and is new, at whatever
/// look; without one the looks go on until none is left. The clipboard is put back
/// either way.
pub proof fn a_look_takes_any_new_text(c: CopySelection, read: Option<String>)
    requires
        c.left > 0,
    ensures
        ({
            let new = read matches Some(t) && !text::is_blank(t@) && opt(c.prior) != Some(t@);
            match after_look(c, read) {
                CopyStep::End { selection, restore } => restore == c.prior && (new || c.left == 1)
                    && selection == (if new {
                    read
                } else {
                    None
                }),
                CopyStep::Look(d) => !new && d.prior == c.prior && d.left == c.left - 1,
                CopyStep::Fire(_) => false,
            }
        }),
{
}

/// Whether `s` is `name` but for white space around it and the case of ASCII letters.
pub open spec fn is_spelled(s: Seq<char>, name: Seq<char>) -> bool {
    text::upper(text::trimmed(s)) == text::upper(name)
}

/// A settings value that names typing, however it is spelled, means `Type`, and every
/// other value means `Paste`.
pub proof fn the_settings_name_the_mode(s: Seq<char>)
    ensures
        mode_named(s) == InjectMode::Type <==> is_spelled(s, "type"@) || is_spelled(s, "typing"@)
            || is_spelled(s, "keystroke"@),
        mode_named(s) == InjectMode::Paste || mode_named(s) == InjectMode::Type,
        is_spelled(s, "paste"@) ==> mode_named(s) == InjectMode::Paste,
{
    reveal_strlit("type");
    reveal_strlit("typing");
    reveal_strlit("keystroke");
    reveal_strlit("paste");
    lemma_spelling(text::trimmed(s), "type"@);
    lemma_spelling(text::trimmed(s), "typing"@);
    lemma_spelling(text::trimmed(s), "keystroke"@);
    lemma_spelling(text::trimmed(s), "paste"@);
    assert("paste"@.len() != "type"@.len() && "paste"@.len() != "typing"@.len() && "paste"@.len()
        != "keystroke"@.len());
}

/// Two texts agree but for ASCII case in upper case exactly if they do in lower case.
pub proof fn lemma_spelling(s: Seq<char>, name: Seq<char>)
    requires
        forall|i: int| 0 <= i < name.len() ==> text::lower_char(#[trigger] name[i]) == name[i],
    ensures
        text::lower(s) == name <==> text::upper(s) == text::upper(name),
{
    if text::lower(s) == name {
        assert forall|i: int| 0 <= i < s.len() implies text::upper(s)[i] == text::upper(name)[i] by {
            assert(text::lower(s)[i] == name[i]);
            text::laws::cases_mirror_each_other(s[i]);
            text::laws::cases_mirror_each_other(name[i]);
        }
        assert(text::upper(s) =~= text::upper(name));
    }
    if text::upper(s) == text::upper(name) {
        assert(s.len() == name.len()) by {
            assert(text::upper(s).len() == s.len());
            assert(text::upper(name).len() == name.len());
        }
        assert forall|i: int| 0 <= i < s.len() implies text::lower(s)[i] == name[i] by {
            assert(text::upper(s)[i] == text::upper(name)[i]);
            assert(text::lower_char(name[i]) == name[i]);
            text::laws::cases_mirror_each_other(s[i]);
            text::laws::cases_mirror_each_other(name[i]);
        }
        assert(text::lower(s) =~= name);
    }
}

/// A chord holds the modifier down around one click of its key and releases it again.
pub proof fn a_chord_is_one_click_under_the_modifier(c: char)
    ensures
        chord(c).len() == 3,
        chord(c).first() == Stroke::PressModifier,
        chord(c).last() == Stroke::ReleaseModifier,
        forall|d: char| #[trigger] chord(c).contains(Stroke::Click(d)) <==> d == c,
{
    assert(chord(c)[1] == Stroke::Click(c));
}

/// Whether a look at the clipboard shows nothing new: no text, blank text, or what was
/// there before.
pub open spec fn shows_nothing_new(prior: Option<String>, read: Option<String>) -> bool {
    match read {
        None => true,
        Some(t) => text::is_blank(t@) || (prior is Some && prior->0@ == t@),
    }
}

/// A selection that reaches the clipboard while it is still looked at is captured,
/// however many looks showed nothing new before, and the clipboard is put back.
pub proof fn a_selection_that_comes_late_is_captured(
    c: CopySelection,
    stale: Seq<Option<String>>,
    t: String,
)
    requires
        stale.len() < c.left,
        forall|i: int| 0 <= i < stale.len() ==> shows_nothing_new(c.prior, #[trigger] stale[i]),
        !shows_nothing_new(c.prior, Some(t)),
    ensures
        after_looks(c, stale.push(Some(t))) == (CopyStep::End {
            selection: Some(t),
            restore: c.prior,
        }),
    decreases stale.len(),
{
    let reads = stale.push(Some(t));
    if stale.len() == 0 {
        assert(reads[0] == Some(t));
    } else {
        let next = CopySelection { prior: c.prior, left: (c.left - 1) as u32 };
        let rest = stale.drop_first();
        assert(reads[0] == stale[0]);
        assert(shows_nothing_new(c.prior, stale[0]));
        assert(after_look(c, reads[0]) == CopyStep::Look(next));
        assert(reads.drop_first() =~= rest.push(Some(t)));
        assert forall|i: int| 0 <= i < rest.len() implies shows_nothing_new(
            next.prior,
            #[trigger] rest[i],
        ) by {
            assert(rest[i] == stale[i + 1]);
        }
        a_selection_that_comes_late_is_captured(next, rest, t);
    }
}

/// A capture looks at the clipboard 25 times, 20 milliseconds apart.
pub proof fn a_capture_waits_half_a_second()
    ensures
        COPY_POLL_ATTEMPTS * COPY_POLL_INTERVAL_MS == 500,
        COPY_POLL_ATTEMPTS == 25,
{
}

/// Each error is told by what failed and why.
pub proof fn errors_are_told_by_what_failed(m: String)
    ensures
        inject_error_text(InjectError::Init(m))
            == "input backend init failed (grant Accessibility?): "@ + m@,
        inject_error_text(InjectError::Inject(m)) == "injection failed: "@ + m@,
        inject_error_text(InjectError::Clipboard(m)) == "clipboard access failed: "@ + m@,
{
}

/// What was read is judged as it was read, look by look.
pub proof fn looks_are_judged_in_order(reads: Seq<Option<String>>, i: int)
    requires
        0 <= i < reads.len(),
    ensures
        reads_view(reads).len() == reads.len(),
        reads[i] matches Some(t) ==> reads_view(reads)[i] == Some(t@),
        reads[i] is None ==> reads_view(reads)[i] is None,
{
}

} // verus!
