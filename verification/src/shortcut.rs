//! Shortcut manager: resolving the configured toggle shortcut from the
//! settings document, parsing shortcut spec strings, and the single-slot
//! lifecycle of the one global shortcut this shell registers.
//!
//! The settings file is read by the embedder; this module receives its text.
//! The OS-level registration calls are likewise performed by the embedder,
//! which reports their outcomes back to the [`ShortcutSlot`].

use std::str::FromStr;
use vstd::prelude::*;

verus! {

// ---------------------------------------------------------------------------
// Settings document
// ---------------------------------------------------------------------------

/// The `shortcuts` record of the settings document.  Every field is optional.
#[derive(Debug)]
pub struct StoredShortcuts {
    pub toggle_window: Option<String>,
}

/// The settings document `{ "shortcuts"?: { "toggleWindow"?: string } }`.
/// Unknown fields are ignored; a missing document is represented by the
/// caller passing no text at all.
#[derive(Debug)]
pub struct StoredSettings {
    pub shortcuts: Option<StoredShortcuts>,
}

impl StoredSettings {
    /// The document reduced to what the loader reads: `None` when the
    /// `shortcuts` record is absent, otherwise its optional `toggleWindow`
    /// entry.
    pub open spec fn model(self) -> Option<Option<Seq<char>>> {
        match self.shortcuts {
            Option::Some(sc) => Option::Some(
                match sc.toggle_window {
                    Option::Some(t) => Option::Some(t@),
                    Option::None => Option::None,
                },
            ),
            Option::None => Option::None,
        }
    }

    /// The `shortcuts.toggleWindow` entry, when both levels are present.
    pub open spec fn spec_toggle_window(self) -> Option<Seq<char>> {
        match self.model() {
            Option::Some(Option::Some(t)) => Option::Some(t),
            _ => Option::None,
        }
    }

    /// Extract the `shortcuts.toggleWindow` entry of a decoded document.
    pub fn toggle_window_entry(self) -> (r: Option<String>)
        ensures
            (match r {
                Option::Some(s) => self.spec_toggle_window() == Option::Some(s@),
                Option::None => self.spec_toggle_window() is None,
            }),
    {
        match self.shortcuts {
            Option::Some(sc) => sc.toggle_window,
            Option::None => Option::None,
        }
    }
}

/// What decoding the settings document text yields: `None` when the text is
/// not a JSON object of the expected shape; otherwise the optional
/// `shortcuts` record with its optional `toggleWindow` string.  A `null`
/// field counts as absent.  The outcome depends on the text alone.
pub uninterp spec fn settings_document_model(s: Seq<char>) -> Option<Option<Option<Seq<char>>>>;

/// Relies on serde_json: `from_str` to parse the document into a
/// `serde_json::Value`, `Value::is_object` and `Value::is_null` to check the
/// shape, `Value::get` to look up the `shortcuts` and `toggleWindow` fields,
/// and `Value::as_str` to read the entry.  Yields `None` for text that is not
/// a JSON object or whose present, non-null fields have the wrong type, as a
/// typed reader of this shape would; a repeated key counts as its last
/// occurrence.
#[verifier::external_body]
fn decode_settings_document(content: &str) -> (r: Option<Option<Option<String>>>)
    ensures
        (match r {
            Option::Some(Option::Some(Option::Some(t))) => settings_document_model(content@)
                == Option::Some(Option::Some(Option::Some(t@))),
            Option::Some(Option::Some(Option::None)) => settings_document_model(content@)
                == Option::Some(Option::Some(Option::None::<Seq<char>>)),
            Option::Some(Option::None) => settings_document_model(content@)
                == Option::Some(Option::None::<Option<Seq<char>>>),
            Option::None => settings_document_model(content@) is None,
        }),
{
    let value: serde_json::Value = serde_json::from_str(content).ok()?;
    if !value.is_object() { return None; }
    let sc = match value.get("shortcuts") { None => return Some(None), Some(s) => s };
    if sc.is_null() { return Some(None); }
    if !sc.is_object() { return None; }
    let t = match sc.get("toggleWindow") { None => return Some(Some(None)), Some(t) => t };
    if t.is_null() { return Some(Some(None)); }
    match t.as_str() { Some(t) => Some(Some(Some(t.to_owned()))), None => None }
}

/// Decode the settings document text into the library's document type.
pub fn parse_stored_settings(content: &str) -> (r: Option<StoredSettings>)
    ensures
        (match r {
            Option::Some(st) => settings_document_model(content@) == Option::Some(st.model()),
            Option::None => settings_document_model(content@) is None,
        }),
{
    match decode_settings_document(content) {
        Option::None => Option::None,
        Option::Some(shortcuts) => Option::Some(
            StoredSettings {
                shortcuts: match shortcuts {
                    Option::None => Option::None,
                    Option::Some(toggle_window) => Option::Some(StoredShortcuts { toggle_window }),
                },
            },
        ),
    }
}

/// The `shortcuts.toggleWindow` entry of a document text, when the text
/// decodes and both levels are present.
pub open spec fn doc_toggle_entry(doc: Seq<char>) -> Option<Seq<char>> {
    match settings_document_model(doc) {
        Option::Some(Option::Some(Option::Some(t))) => Option::Some(t),
        _ => Option::None,
    }
}

/// The custom toggle shortcut stored in the settings document, if any.
///
/// The caller passes `None` when the settings file could not be found or
/// read; a document that does not decode, or that misses either field,
/// collapses to `None` as well — no distinction is surfaced.
pub fn load_toggle_window_shortcut(content: Option<&str>) -> (r: Option<String>)
    ensures
        (match content {
            Option::None => r is None,
            Option::Some(c) => (match r {
                Option::Some(s) => doc_toggle_entry(c@) == Option::Some(s@),
                Option::None => doc_toggle_entry(c@) is None,
            }),
        }),
{
    match content {
        Option::None => Option::None,
        Option::Some(c) => match parse_stored_settings(c) {
            Option::None => Option::None,
            Option::Some(st) => st.toggle_window_entry(),
        },
    }
}

// ---------------------------------------------------------------------------
// Resolution
// ---------------------------------------------------------------------------

/// The built-in default toggle shortcut.
pub open spec fn default_toggle_shortcut() -> Seq<char> {
    "Alt+N"@
}

/// Resolution rule: the stored entry when present, else the default.
pub open spec fn spec_resolved(loaded: Option<Seq<char>>) -> Seq<char> {
    match loaded {
        Option::Some(s) => s,
        Option::None => default_toggle_shortcut(),
    }
}

/// Resolve the active toggle shortcut: the settings entry if one was loaded,
/// else the built-in default `"Alt+N"`.
pub fn resolve_toggle_shortcut(loaded: Option<String>) -> (r: String)
    ensures
        (match loaded {
            Option::Some(s) => r@ == s@,
            Option::None => r@ == default_toggle_shortcut(),
        }),
{
    match loaded {
        Option::Some(s) => s,
        Option::None => "Alt+N".to_owned(),
    }
}

/// Law: a settings document that misses the `shortcuts` record or the
/// `toggleWindow` field (or has either set to null) resolves to the default
/// shortcut `"Alt+N"`.
pub proof fn lemma_missing_fields_resolve_to_default(doc: StoredSettings)
    requires
        doc.shortcuts is None || (doc.shortcuts matches Option::Some(sc)
            && sc.toggle_window is None),
    ensures
        doc.spec_toggle_window() is None,
        spec_resolved(doc.spec_toggle_window()) == default_toggle_shortcut(),
{
}

// ---------------------------------------------------------------------------
// Shortcut spec parsing
// ---------------------------------------------------------------------------

#[verifier::external_type_specification]
#[verifier::external_body]
pub struct ExHotKey(global_hotkey::hotkey::HotKey);

/// What the spec-string parser decides: `Ok` when the text is a valid
/// modifier+key combination, else the parser's diagnostic.  The outcome
/// depends on the text alone.
pub uninterp spec fn hotkey_parse_outcome(s: Seq<char>) -> Result<(), Seq<char>>;

/// Relies on `global_hotkey::hotkey::HotKey::from_str`, the parser behind the
/// global-shortcut plugin's `Shortcut` type: it accepts modifier names joined
/// by `+` with one trailing key name, and both acceptance and the diagnostic
/// are functions of the string alone.
#[verifier::external_body]
fn parse_hotkey(text: &str) -> (r: Result<global_hotkey::hotkey::HotKey, String>)
    ensures
        (match r {
            Result::Ok(k) => hotkey_parse_outcome(text@) is Ok,
            Result::Err(d) => hotkey_parse_outcome(text@) == Result::<(), Seq<char>>::Err(d@),
        }),
{
    match global_hotkey::hotkey::HotKey::from_str(text) {
        Ok(k) => Ok(k),
        Err(e) => Err(format!("{e}")),
    }
}

/// Errors of the shortcut lifecycle.  Each embeds what a maintainer needs to
/// report the failure: the requested spec text and the collaborator's
/// diagnostic.
#[derive(Debug)]
pub enum ShortcutError {
    /// The requested combination did not parse.
    InvalidShortcut { spec_text: String, detail: String },
    /// The OS refused to clear the existing registrations.
    ClearFailed { detail: String },
    /// The OS refused to register the new combination (for example because
    /// another process already claimed it).
    RegistrationFailed { spec_text: String, detail: String },
}

// ---------------------------------------------------------------------------
// The single shortcut slot
// ---------------------------------------------------------------------------

/// The one global-shortcut slot this subsystem manages.
///
/// States are "unregistered" (`active` is `None`) and "registered" (`active`
/// holds the spec text of the one bound combination).  The only transition
/// that binds a combination passes through the unregistered state first:
/// replace is release-then-acquire, never two live registrations.
#[derive(Debug)]
pub struct ShortcutSlot {
    pub active: Option<String>,
}

impl View for ShortcutSlot {
    type V = Option<Seq<char>>;

    open spec fn view(&self) -> Option<Seq<char>> {
        match self.active {
            Option::Some(s) => Option::Some(s@),
            Option::None => Option::None,
        }
    }
}

/// The release transition: clearing unbinds whatever was bound.
pub open spec fn spec_clear(v: Option<Seq<char>>) -> Option<Seq<char>> {
    Option::None
}

/// The acquire transition: registering `text` binds it; it is only taken
/// from the unregistered state.
pub open spec fn spec_register(v: Option<Seq<char>>, text: Seq<char>) -> Option<Seq<char>> {
    Option::Some(text)
}

/// The set of spec texts with an active OS binding: empty or a singleton.
pub open spec fn active_set(v: Option<Seq<char>>) -> Set<Seq<char>> {
    match v {
        Option::Some(s) => Set::empty().insert(s),
        Option::None => Set::empty(),
    }
}

/// Key state of a delivered global-shortcut event.
#[derive(Clone, Copy, Debug, PartialEq, Eq, Structural)]
pub enum HotkeyState {
    KeyPressed,
    KeyReleased,
}

/// Event filter of the registered listener: only the key-press transition
/// triggers the toggle; key-release (and repeat) events are ignored.
pub fn hotkey_event_should_toggle(state: HotkeyState) -> (b: bool)
    ensures
        b == (state is KeyPressed),
{
    match state {
        HotkeyState::KeyPressed => true,
        HotkeyState::KeyReleased => false,
    }
}

/// Whether a hotkey event for combination `combo` in key state `pressed`
/// makes the shell toggle the main window: the combination must be the one
/// bound, and only the key-press transition counts (release and repeat are
/// ignored).
pub open spec fn spec_triggers_toggle(v: Option<Seq<char>>, combo: Seq<char>, pressed: bool) -> bool {
    v == Option::Some(combo) && pressed
}

/// Step 1 of an update: parse the requested combination.  On failure the
/// slot is untouched — nothing else of the update runs — and the error
/// embeds the raw text and the parser's diagnostic.
pub fn plan_shortcut_update(text: &str) -> (r: Result<
    global_hotkey::hotkey::HotKey,
    ShortcutError,
>)
    ensures
        r is Ok <==> hotkey_parse_outcome(text@) is Ok,
        (match r {
            Result::Ok(k) => hotkey_parse_outcome(text@) is Ok,
            Result::Err(e) => e matches ShortcutError::InvalidShortcut { spec_text, detail }
                && spec_text@ == text@
                && hotkey_parse_outcome(text@) == Result::<(), Seq<char>>::Err(detail@),
        }),
{
    match parse_hotkey(text) {
        Result::Ok(k) => Result::Ok(k),
        Result::Err(detail) => Result::Err(
            ShortcutError::InvalidShortcut { spec_text: text.to_owned(), detail },
        ),
    }
}

impl ShortcutSlot {
    /// At startup nothing is registered.
    pub fn new() -> (s: ShortcutSlot)
        ensures
            s@ is None,
    {
        ShortcutSlot { active: Option::None }
    }

    /// Step 2: the OS cleared every registration this slot made.  The slot is
    /// unregistered; an update always passes through this state.
    pub fn note_all_cleared(&mut self)
        ensures
            final(self)@ == spec_clear(old(self)@),
            final(self)@ is None,
    {
        self.active = Option::None;
    }

    /// Step 2, failed: the OS refused to clear.  The slot keeps its previous
    /// state and the update stops with a reportable error.
    pub fn note_clear_failed(&self, detail: String) -> (e: ShortcutError)
        ensures
            e matches ShortcutError::ClearFailed { detail: d } && d@ == detail@,
    {
        ShortcutError::ClearFailed { detail }
    }

    /// Step 3: the OS accepted the registration of `text`.  Registration is
    /// only attempted from the unregistered state, so at most one combination
    /// is ever bound.
    pub fn note_registered(&mut self, text: &str)
        requires
            old(self)@ is None,
        ensures
            final(self)@ == spec_register(old(self)@, text@),
            final(self)@ == Option::Some(text@),
            active_set(final(self)@) == Set::empty().insert(text@),
    {
        self.active = Option::Some(text.to_owned());
    }

    /// Step 3, failed: the OS refused the new combination after the clear.
    /// The slot stays unregistered — a detectable, reportable state, not a
    /// silent one — and the error embeds the text and the OS diagnostic.
    pub fn note_registration_failed(&mut self, text: &str, detail: String) -> (e: ShortcutError)
        requires
            old(self)@ is None,
        ensures
            final(self)@ is None,
            e matches ShortcutError::RegistrationFailed { spec_text, detail: d }
                && spec_text@ == text@ && d@ == detail@,
    {
        ShortcutError::RegistrationFailed { spec_text: text.to_owned(), detail }
    }
}

/// Start-up wiring: resolve the configured combination — the settings entry
/// when the document text holds one, else the default `"Alt+N"` — and parse
/// it.  `Ok` carries the parsed combination and its spec text for the
/// embedder to register; `Err` is the configuration error that aborts
/// launch.
pub fn setup_shortcuts(settings_content: Option<&str>) -> (r: Result<
    (global_hotkey::hotkey::HotKey, String),
    ShortcutError,
>)
    ensures
        ({
            let resolved = spec_resolved(
                match settings_content {
                    Option::Some(c) => doc_toggle_entry(c@),
                    Option::None => Option::None,
                },
            );
            match r {
                Result::Ok((k, text)) => text@ == resolved && hotkey_parse_outcome(resolved) is Ok,
                Result::Err(e) => hotkey_parse_outcome(resolved) is Err
                    && (e matches ShortcutError::InvalidShortcut { spec_text, detail }
                        && spec_text@ == resolved
                        && hotkey_parse_outcome(resolved) == Result::<(), Seq<char>>::Err(detail@)),
            }
        }),
{
    let loaded = load_toggle_window_shortcut(settings_content);
    let text = resolve_toggle_shortcut(loaded);
    match plan_shortcut_update(text.as_str()) {
        Result::Ok(k) => Result::Ok((k, text)),
        Result::Err(e) => Result::Err(e),
    }
}

/// Law: replacing the binding `"Alt+N"` by `"Ctrl+Alt+M"` — release, then
/// acquire — leaves exactly one active combination: `"Ctrl+Alt+M"` triggers
/// the toggle on a key press, `"Alt+N"` no longer does.
pub proof fn lemma_update_replaces_binding(v: Option<Seq<char>>)
    requires
        v == Option::Some("Alt+N"@),
    ensures
        ({
            let cleared = spec_clear(v);
            let replaced = spec_register(cleared, "Ctrl+Alt+M"@);
            &&& cleared is None
            &&& replaced == Option::Some("Ctrl+Alt+M"@)
            &&& active_set(replaced) == Set::empty().insert("Ctrl+Alt+M"@)
            &&& !active_set(replaced).contains("Alt+N"@)
            &&& spec_triggers_toggle(replaced, "Ctrl+Alt+M"@, true)
            &&& !spec_triggers_toggle(replaced, "Alt+N"@, true)
            &&& !spec_triggers_toggle(replaced, "Ctrl+Alt+M"@, false)
        }),
{
    reveal_strlit("Alt+N");
    reveal_strlit("Ctrl+Alt+M");
    assert("Alt+N"@.len() == 5);
    assert("Ctrl+Alt+M"@.len() == 10);
    assert("Alt+N"@ != "Ctrl+Alt+M"@);
    assert(Set::empty().insert("Ctrl+Alt+M"@).contains("Alt+N"@) ==> "Alt+N"@ == "Ctrl+Alt+M"@);
}

} // verus!
