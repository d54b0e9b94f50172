//! Typed configuration: trigger and transcription modes, the two hotkey
//! bindings with their validation rules, recognizer provider settings,
//! rewriter settings, and the forward migration of older layouts.

use vstd::prelude::*;

use crate::keys::HotkeyKey;
use crate::keys::spec_is_function_key;
use crate::keys::spec_is_modifier;

verus! {

// ===========================================================================
// Modes
// ===========================================================================

/// How a chord controls the start and end of a recording.
#[derive(Clone, Copy, Debug, PartialEq, Eq, Structural)]
pub enum HotkeyMode {
    /// Hold the chord to record; the falling edge stops.
    Press,
    /// One rising edge starts, the next rising edge of the same chord stops.
    Toggle,
}

impl Default for HotkeyMode {
    /// The default control style is press-to-talk.
    fn default() -> (r: Self)
        ensures
            r == HotkeyMode::Press,
    {
        HotkeyMode::Press
    }
}

impl HotkeyMode {
    /// Display name of the mode, for logs.
    pub fn display_name(&self) -> &'static str {
        match self {
            HotkeyMode::Press => "按住录音",
            HotkeyMode::Toggle => "切换录音",
        }
    }
}

/// How a finished transcription is post-processed.
#[derive(Clone, Copy, Debug, PartialEq, Eq, Structural)]
pub enum TranscriptionMode {
    /// Plain dictation: recognized text, optionally polished, then inserted.
    Normal,
    /// Assistant: the speech is an instruction for the language model.
    Assistant,
}

impl Default for TranscriptionMode {
    /// The default processing mode is plain dictation.
    fn default() -> (r: Self)
        ensures
            r == TranscriptionMode::Normal,
    {
        TranscriptionMode::Normal
    }
}

impl TranscriptionMode {
    /// Display name of the mode, for logs.
    pub fn display_name(&self) -> &'static str {
        match self {
            TranscriptionMode::Normal => "普通模式",
            TranscriptionMode::Assistant => "AI助手",
        }
    }

    /// Both modes end in an automatic insertion of the produced text.
    pub fn should_auto_insert(&self) -> (r: bool)
        ensures
            r,
    {
        match self {
            TranscriptionMode::Normal => true,
            TranscriptionMode::Assistant => true,
        }
    }

    /// Only the assistant mode cannot do without the language model.
    pub fn requires_llm(&self) -> (r: bool)
        ensures
            r == (*self is Assistant),
    {
        match self {
            TranscriptionMode::Normal => false,
            TranscriptionMode::Assistant => true,
        }
    }
}

/// Which of the two chords fired, and so which processing flow runs.
#[derive(Clone, Copy, Debug, PartialEq, Eq, Structural)]
pub enum TriggerMode {
    /// Speech becomes text at the cursor.
    Dictation,
    /// Speech becomes an instruction for the assistant.
    AiAssistant,
}

impl TriggerMode {
    /// Display name of the mode, for logs.
    pub fn display_name(&self) -> &'static str {
        match self {
            TriggerMode::Dictation => "听写模式",
            TriggerMode::AiAssistant => "AI助手模式",
        }
    }
}

// ===========================================================================
// Key-sequence helpers
// ===========================================================================

/// A chord's display form: the display names of its keys, in order,
/// joined by `+`.
pub open spec fn spec_format_display(keys: Seq<HotkeyKey>) -> Seq<char>
    decreases keys.len(),
{
    if keys.len() == 0 {
        Seq::empty()
    } else if keys.len() == 1 {
        crate::keys::spec_display_name(keys[0])
    } else {
        spec_format_display(keys.drop_last()) + "+"@ + crate::keys::spec_display_name(keys.last())
    }
}

/// The set of keys named by a chord; order never matters for matching.
pub open spec fn key_set(s: Seq<HotkeyKey>) -> Set<HotkeyKey> {
    Set::new(|k: HotkeyKey| s.contains(k))
}

/// Some key of the sequence is a modifier.
pub open spec fn spec_has_modifier(s: Seq<HotkeyKey>) -> bool {
    exists|i: int| 0 <= i < s.len() && spec_is_modifier(#[trigger] s[i])
}

/// Some key of the sequence is a function key.
pub open spec fn spec_has_function_key(s: Seq<HotkeyKey>) -> bool {
    exists|i: int| 0 <= i < s.len() && spec_is_function_key(#[trigger] s[i])
}

/// Whether the vector holds the key.
pub fn contains_key(v: &Vec<HotkeyKey>, k: HotkeyKey) -> (r: bool)
    ensures
        r == v@.contains(k),
{
    let mut i: usize = 0;
    while i < v.len()
        invariant
            0 <= i <= v.len(),
            forall|j: int| 0 <= j < i ==> v@[j] != k,
        decreases v.len() - i,
    {
        if v[i] == k {
            return true;
        }
        i = i + 1;
    }
    false
}

/// Whether every key of `a` also stands in `b`.
pub fn keys_subset_of(a: &Vec<HotkeyKey>, b: &Vec<HotkeyKey>) -> (r: bool)
    ensures
        r == key_set(a@).subset_of(key_set(b@)),
{
    let mut i: usize = 0;
    while i < a.len()
        invariant
            0 <= i <= a.len(),
            forall|j: int| 0 <= j < i ==> key_set(b@).contains(#[trigger] a@[j]),
        decreases a.len() - i,
    {
        if !contains_key(b, a[i]) {
            assert(!key_set(b@).contains(a@[i as int]));
            return false;
        }
        i = i + 1;
    }
    assert forall|k: HotkeyKey| key_set(a@).contains(k) implies key_set(b@).contains(k) by {
        let j = choose|j: int| 0 <= j < a@.len() && a@[j] == k;
        assert(key_set(b@).contains(a@[j]));
    }
    true
}

/// Whether `a` and `b` name the same set of keys.
pub fn same_key_set(a: &Vec<HotkeyKey>, b: &Vec<HotkeyKey>) -> (r: bool)
    ensures
        r == (key_set(a@) == key_set(b@)),
{
    let fwd = keys_subset_of(a, b);
    let bwd = keys_subset_of(b, a);
    if fwd && bwd {
        proof {
            assert(key_set(a@) =~= key_set(b@));
        }
        true
    } else {
        proof {
            if key_set(a@) == key_set(b@) {
                assert(key_set(a@).subset_of(key_set(b@)));
                assert(key_set(b@).subset_of(key_set(a@)));
            }
        }
        false
    }
}

/// Whether some key occurs twice in the sequence.
pub fn has_duplicate_key(v: &Vec<HotkeyKey>) -> (r: bool)
    ensures
        r == !v@.no_duplicates(),
{
    let mut i: usize = 0;
    while i < v.len()
        invariant
            0 <= i <= v.len(),
            forall|p: int, q: int| 0 <= p < q < i ==> v@[p] != v@[q],
        decreases v.len() - i,
    {
        let mut j: usize = 0;
        while j < i
            invariant
                0 <= j <= i < v.len(),
                forall|q: int| 0 <= q < j ==> v@[q] != v@[i as int],
            decreases i - j,
        {
            if v[j] == v[i] {
                assert(!v@.no_duplicates());
                return true;
            }
            j = j + 1;
        }
        i = i + 1;
    }
    assert(v@.no_duplicates());
    false
}

/// Whether some key of the vector is a modifier.
pub fn any_modifier(v: &Vec<HotkeyKey>) -> (r: bool)
    ensures
        r == spec_has_modifier(v@),
{
    let mut i: usize = 0;
    while i < v.len()
        invariant
            0 <= i <= v.len(),
            forall|j: int| 0 <= j < i ==> !spec_is_modifier(#[trigger] v@[j]),
        decreases v.len() - i,
    {
        if v[i].is_modifier() {
            return true;
        }
        i = i + 1;
    }
    false
}

/// Whether some key of the vector is a function key.
pub fn any_function_key(v: &Vec<HotkeyKey>) -> (r: bool)
    ensures
        r == spec_has_function_key(v@),
{
    let mut i: usize = 0;
    while i < v.len()
        invariant
            0 <= i <= v.len(),
            forall|j: int| 0 <= j < i ==> !spec_is_function_key(#[trigger] v@[j]),
        decreases v.len() - i,
    {
        if v[i].is_function_key() {
            return true;
        }
        i = i + 1;
    }
    false
}

// ===========================================================================
// Hotkey binding
// ===========================================================================

/// One chord binding: the keys held together, the control style, and an
/// optional second chord that starts a release-lock session directly.
#[derive(Clone, Debug)]
pub struct HotkeyConfig {
    /// The keys that must be held simultaneously.
    pub keys: Vec<HotkeyKey>,
    /// Press-to-talk or toggle.
    pub mode: HotkeyMode,
    /// Retained switch of an older layout; the release-lock chord below
    /// replaced it.
    pub enable_release_lock: bool,
    /// Chord that starts a session which outlives the key release.
    pub release_mode_keys: Option<Vec<HotkeyKey>>,
}

/// Why a single binding was rejected.
#[derive(Clone, Copy, Debug, PartialEq, Eq, Structural)]
pub enum HotkeyConfigError {
    /// The chord names no key at all.
    EmptyKeys,
    /// The chord has neither a modifier nor a function key.
    MissingModifierOrFunctionKey,
    /// The chord names more than four keys.
    TooManyKeys,
    /// The chord names some key twice.
    DuplicateKeys,
    /// The release-lock chord names no key at all.
    EmptyReleaseKeys,
    /// The release-lock chord has neither a modifier nor a function key.
    ReleaseMissingModifierOrFunctionKey,
    /// The release-lock chord names more than four keys.
    TooManyReleaseKeys,
    /// The release-lock chord names some key twice.
    DuplicateReleaseKeys,
    /// The release-lock chord equals the main chord.
    ReleaseEqualsMain,
}

/// The well-formedness conditions on one plain chord: non-empty, at most
/// four keys, no duplicates, and at least one modifier or function key.
pub open spec fn spec_chord_wf(keys: Seq<HotkeyKey>) -> bool {
    &&& keys.len() > 0
    &&& keys.len() <= 4
    &&& keys.no_duplicates()
    &&& (spec_has_modifier(keys) || spec_has_function_key(keys))
}

/// The full well-formedness of a binding: the main chord is well formed,
/// and the release-lock chord, if set, is well formed and differs from
/// the main chord as a set.
pub open spec fn spec_binding_wf(c: HotkeyConfig) -> bool {
    &&& spec_chord_wf(c.keys@)
    &&& match c.release_mode_keys {
        Some(r) => spec_chord_wf(r@) && key_set(r@) != key_set(c.keys@),
        None => true,
    }
}

/// The verdict of `HotkeyConfig::validate`, with the checks in the order
/// in which they are made, so that the reported error is pinned down.
pub open spec fn spec_validate_binding(c: HotkeyConfig) -> Result<(), HotkeyConfigError> {
    if c.keys@.len() == 0 {
        Err(HotkeyConfigError::EmptyKeys)
    } else if !spec_has_modifier(c.keys@) && !spec_has_function_key(c.keys@) {
        Err(HotkeyConfigError::MissingModifierOrFunctionKey)
    } else if c.keys@.len() > 4 {
        Err(HotkeyConfigError::TooManyKeys)
    } else if !c.keys@.no_duplicates() {
        Err(HotkeyConfigError::DuplicateKeys)
    } else {
        match c.release_mode_keys {
            None => Ok(()),
            Some(r) => {
                if r@.len() == 0 {
                    Err(HotkeyConfigError::EmptyReleaseKeys)
                } else if !spec_has_modifier(r@) && !spec_has_function_key(r@) {
                    Err(HotkeyConfigError::ReleaseMissingModifierOrFunctionKey)
                } else if r@.len() > 4 {
                    Err(HotkeyConfigError::TooManyReleaseKeys)
                } else if !r@.no_duplicates() {
                    Err(HotkeyConfigError::DuplicateReleaseKeys)
                } else if key_set(r@) == key_set(c.keys@) {
                    Err(HotkeyConfigError::ReleaseEqualsMain)
                } else {
                    Ok(())
                }
            },
        }
    }
}

/// Validation succeeds exactly on the well-formed bindings.
pub proof fn lemma_validate_binding_ok_iff_wf(c: HotkeyConfig)
    ensures
        spec_validate_binding(c) is Ok <==> spec_binding_wf(c),
{
}

impl HotkeyConfig {
    /// Whether the main chord holds at least one modifier.
    pub fn has_modifier(&self) -> (r: bool)
        ensures
            r == spec_has_modifier(self.keys@),
    {
        any_modifier(&self.keys)
    }

    /// Checks the binding: the main chord must be non-empty, hold at most
    /// four distinct keys and at least one modifier or function key; the
    /// release-lock chord, if present, must meet the same conditions and
    /// differ from the main chord.
    pub fn validate(&self) -> (r: Result<(), HotkeyConfigError>)
        ensures
            r == spec_validate_binding(*self),
            r is Ok <==> spec_binding_wf(*self),
    {
        if self.keys.len() == 0 {
            return Err(HotkeyConfigError::EmptyKeys);
        }
        let has_function = any_function_key(&self.keys);
        if !self.has_modifier() && !has_function {
            return Err(HotkeyConfigError::MissingModifierOrFunctionKey);
        }
        if self.keys.len() > 4 {
            return Err(HotkeyConfigError::TooManyKeys);
        }
        if has_duplicate_key(&self.keys) {
            return Err(HotkeyConfigError::DuplicateKeys);
        }
        match &self.release_mode_keys {
            None => Ok(()),
            Some(release_keys) => {
                if release_keys.len() == 0 {
                    return Err(HotkeyConfigError::EmptyReleaseKeys);
                }
                let release_has_function = any_function_key(release_keys);
                let release_has_modifier = any_modifier(release_keys);
                if !release_has_modifier && !release_has_function {
                    return Err(HotkeyConfigError::ReleaseMissingModifierOrFunctionKey);
                }
                if release_keys.len() > 4 {
                    return Err(HotkeyConfigError::TooManyReleaseKeys);
                }
                if has_duplicate_key(release_keys) {
                    return Err(HotkeyConfigError::DuplicateReleaseKeys);
                }
                if same_key_set(release_keys, &self.keys) {
                    return Err(HotkeyConfigError::ReleaseEqualsMain);
                }
                Ok(())
            },
        }
    }

    /// The chord written as the display names of its keys joined by `+`,
    /// for logs.
    pub fn format_display(&self) -> (r: String)
        ensures
            r@ == spec_format_display(self.keys@),
    {
        let ghost keys = self.keys@;
        let mut out = String::new();
        let mut i: usize = 0;
        while i < self.keys.len()
            invariant
                0 <= i <= keys.len(),
                keys == self.keys@,
                out@ == spec_format_display(keys.subrange(0, i as int)),
            decreases self.keys.len() - i,
        {
            if i > 0 {
                out.append("+");
            }
            out.append(self.keys[i].display_name());
            proof {
                let cur = keys.subrange(0, i + 1 as int);
                if i == 0 {
                    assert(cur =~= seq![keys[0]]);
                } else {
                    assert(cur.drop_last() =~= keys.subrange(0, i as int));
                    assert(cur.last() == keys[i as int]);
                }
            }
            i = i + 1;
        }
        proof {
            assert(keys.subrange(0, keys.len() as int) =~= keys);
        }
        out
    }
}

/// The default dictation binding: left Ctrl with the left super key,
/// press-to-talk, and F2 as the release-lock chord.
pub fn default_dictation_hotkey() -> (r: HotkeyConfig)
    ensures
        r.keys@ =~= seq![HotkeyKey::ControlLeft, HotkeyKey::MetaLeft],
        r.mode == HotkeyMode::Press,
        !r.enable_release_lock,
        r.release_mode_keys matches Some(rel) && rel@ =~= seq![HotkeyKey::F2],
{
    let mut keys: Vec<HotkeyKey> = Vec::new();
    keys.push(HotkeyKey::ControlLeft);
    keys.push(HotkeyKey::MetaLeft);
    let mut release: Vec<HotkeyKey> = Vec::new();
    release.push(HotkeyKey::F2);
    HotkeyConfig {
        keys,
        mode: HotkeyMode::Press,
        enable_release_lock: false,
        release_mode_keys: Some(release),
    }
}

/// The default assistant binding: left Alt with Space, press-to-talk,
/// and no release-lock chord.
pub fn default_assistant_hotkey() -> (r: HotkeyConfig)
    ensures
        r.keys@ =~= seq![HotkeyKey::AltLeft, HotkeyKey::Space],
        r.mode == HotkeyMode::Press,
        !r.enable_release_lock,
        r.release_mode_keys is None,
{
    let mut keys: Vec<HotkeyKey> = Vec::new();
    keys.push(HotkeyKey::AltLeft);
    keys.push(HotkeyKey::Space);
    HotkeyConfig { keys, mode: HotkeyMode::Press, enable_release_lock: false, release_mode_keys: None }
}

impl Default for HotkeyConfig {
    /// The historical single-binding default: left Ctrl with the left
    /// super key, press-to-talk, no release-lock chord.
    fn default() -> (r: Self)
        ensures
            r.keys@ =~= seq![HotkeyKey::ControlLeft, HotkeyKey::MetaLeft],
            r.mode == HotkeyMode::Press,
            !r.enable_release_lock,
            r.release_mode_keys is None,
    {
        let mut keys: Vec<HotkeyKey> = Vec::new();
        keys.push(HotkeyKey::ControlLeft);
        keys.push(HotkeyKey::MetaLeft);
        HotkeyConfig { keys, mode: HotkeyMode::Press, enable_release_lock: false, release_mode_keys: None }
    }
}

// ===========================================================================
// Dual binding
// ===========================================================================

/// The two bindings of the engine, one per trigger mode.
#[derive(Clone, Debug)]
pub struct DualHotkeyConfig {
    /// Chord of the dictation mode.
    pub dictation: HotkeyConfig,
    /// Chord of the assistant mode.
    pub assistant: HotkeyConfig,
}

/// Why a dual binding was rejected.
#[derive(Clone, Copy, Debug, PartialEq, Eq, Structural)]
pub enum DualHotkeyError {
    /// The dictation binding is itself invalid.
    Dictation(HotkeyConfigError),
    /// The assistant binding is itself invalid.
    Assistant(HotkeyConfigError),
    /// The two main chords name the same set of keys.
    SameKeys,
    /// One main chord is contained in the other, so reaching the larger
    /// chord would first pass through the smaller one.
    SubsetConflict,
}

/// Well-formedness of the pair: both bindings well formed, and the two
/// main chords neither equal nor one a subset of the other.
pub open spec fn spec_dual_wf(d: DualHotkeyConfig) -> bool {
    &&& spec_binding_wf(d.dictation)
    &&& spec_binding_wf(d.assistant)
    &&& !key_set(d.dictation.keys@).subset_of(key_set(d.assistant.keys@))
    &&& !key_set(d.assistant.keys@).subset_of(key_set(d.dictation.keys@))
}

/// The verdict of `DualHotkeyConfig::validate`, with the checks in order.
pub open spec fn spec_validate_dual(d: DualHotkeyConfig) -> Result<(), DualHotkeyError> {
    match spec_validate_binding(d.dictation) {
        Err(e) => Err(DualHotkeyError::Dictation(e)),
        Ok(_) => match spec_validate_binding(d.assistant) {
            Err(e) => Err(DualHotkeyError::Assistant(e)),
            Ok(_) => {
                if key_set(d.dictation.keys@) == key_set(d.assistant.keys@) {
                    Err(DualHotkeyError::SameKeys)
                } else if key_set(d.dictation.keys@).subset_of(key_set(d.assistant.keys@))
                    || key_set(d.assistant.keys@).subset_of(key_set(d.dictation.keys@)) {
                    Err(DualHotkeyError::SubsetConflict)
                } else {
                    Ok(())
                }
            },
        },
    }
}

/// Dual validation succeeds exactly on the well-formed pairs.
pub proof fn lemma_validate_dual_ok_iff_wf(d: DualHotkeyConfig)
    ensures
        spec_validate_dual(d) is Ok <==> spec_dual_wf(d),
{
    if key_set(d.dictation.keys@) == key_set(d.assistant.keys@) {
        assert(key_set(d.dictation.keys@).subset_of(key_set(d.assistant.keys@)));
    }
}

impl DualHotkeyConfig {
    /// Fills the release-lock chord of older files that carry none: the
    /// dictation binding gets F2, so release-lock sessions stay
    /// reachable after an upgrade. A configured chord is left alone.
    pub fn ensure_release_lock_default(&mut self)
        ensures
            old(self).dictation.release_mode_keys is Some ==> *final(self) == *old(self),
            old(self).dictation.release_mode_keys is None ==> {
                &&& final(self).dictation.release_mode_keys matches Some(rel) && rel@ =~= seq![
                    HotkeyKey::F2,
                ]
                &&& final(self).dictation.keys == old(self).dictation.keys
                &&& final(self).dictation.mode == old(self).dictation.mode
                &&& final(self).assistant == old(self).assistant
            },
    {
        if self.dictation.release_mode_keys.is_none() {
            let mut release: Vec<HotkeyKey> = Vec::new();
            release.push(HotkeyKey::F2);
            self.dictation.release_mode_keys = Some(release);
        }
    }

    /// Checks both bindings, then that the two main chords are neither
    /// the same set of keys nor one a subset of the other.
    pub fn validate(&self) -> (r: Result<(), DualHotkeyError>)
        ensures
            r == spec_validate_dual(*self),
            r is Ok <==> spec_dual_wf(*self),
    {
        proof {
            lemma_validate_dual_ok_iff_wf(*self);
        }
        if let Err(e) = self.dictation.validate() {
            return Err(DualHotkeyError::Dictation(e));
        }
        if let Err(e) = self.assistant.validate() {
            return Err(DualHotkeyError::Assistant(e));
        }
        if same_key_set(&self.dictation.keys, &self.assistant.keys) {
            return Err(DualHotkeyError::SameKeys);
        }
        if keys_subset_of(&self.dictation.keys, &self.assistant.keys) || keys_subset_of(
            &self.assistant.keys,
            &self.dictation.keys,
        ) {
            return Err(DualHotkeyError::SubsetConflict);
        }
        Ok(())
    }
}

// ===========================================================================
// Recognizer providers
// ===========================================================================

/// The cloud recognizers a provider config may name.
#[derive(Clone, Copy, Debug, PartialEq, Eq, Structural)]
pub enum AsrProvider {
    Qwen,
    Doubao,
    SiliconFlow,
}

/// Credentials for one recognizer backend.
#[derive(Clone, Debug)]
pub struct AsrProviderConfig {
    pub provider: AsrProvider,
    pub api_key: String,
    /// Application id of backends that use a key pair.
    pub app_id: Option<String>,
    /// Access token of backends that use a key pair.
    pub access_token: Option<String>,
}

/// The primary recognizer, an optional fallback, and whether the
/// fallback races the primary.
#[derive(Clone, Debug)]
pub struct AsrConfig {
    pub primary: AsrProviderConfig,
    pub fallback: Option<AsrProviderConfig>,
    pub enable_fallback: bool,
}

impl Default for AsrConfig {
    /// By default the primary recognizer is Qwen with no credentials and
    /// no fallback.
    fn default() -> (r: Self)
        ensures
            r.primary.provider == AsrProvider::Qwen,
            r.primary.api_key@.len() == 0,
            r.primary.app_id is None,
            r.primary.access_token is None,
            r.fallback is None,
            !r.enable_fallback,
    {
        AsrConfig {
            primary: AsrProviderConfig {
                provider: AsrProvider::Qwen,
                api_key: String::new(),
                app_id: None,
                access_token: None,
            },
            fallback: None,
            enable_fallback: false,
        }
    }
}

// ===========================================================================
// Rewriter (LLM) configuration
// ===========================================================================

/// One named system prompt the dictation rewriter can run under.
#[derive(Clone, Debug)]
pub struct LlmPreset {
    pub id: String,
    pub name: String,
    pub system_prompt: String,
}

/// The dictation rewriter: endpoint, model, key, and the preset list.
#[derive(Clone, Debug)]
pub struct LlmConfig {
    pub endpoint: String,
    pub model: String,
    pub api_key: String,
    pub presets: Vec<LlmPreset>,
    pub active_preset_id: String,
}

/// Endpoint used by the rewriter and the assistant when none is configured.
pub fn default_llm_endpoint() -> (r: String)
    ensures
        r@ == "https://open.bigmodel.cn/api/paas/v4/chat/completions"@,
{
    "https://open.bigmodel.cn/api/paas/v4/chat/completions".to_owned()
}

/// Model used by the rewriter and the assistant when none is configured.
pub fn default_llm_model() -> (r: String)
    ensures
        r@ == "glm-4-flash-250414"@,
{
    "glm-4-flash-250414".to_owned()
}

/// The two presets a fresh rewriter config carries: transcript polishing
/// and Chinese-to-English translation.
pub fn default_presets() -> (r: Vec<LlmPreset>)
    ensures
        r@.len() == 2,
        r@[0].id@ == "polishing"@,
        r@[1].id@ == "translation"@,
{
    let polishing = LlmPreset {
        id: "polishing".to_owned(),
        name: "文本润色".to_owned(),
        system_prompt:
            "你是一个语音转写润色助手。请在不改变原意的前提下：1）删除重复或意义相近的句子；2）合并同一主题的内容；3）去除「嗯」「啊」等口头禅；4）保留数字与关键信息；5）相关数字和时间不要使用中文；6）整理成自然的段落。输出纯文本即可。".to_owned(),
    };
    let translation = LlmPreset {
        id: "translation".to_owned(),
        name: "中译英".to_owned(),
        system_prompt:
            "你是一个专业的翻译助手。请将用户的中文语音转写内容翻译成地道、流畅的英文。不要输出任何解释性文字，只输出翻译结果。".to_owned(),
    };
    let mut presets: Vec<LlmPreset> = Vec::new();
    presets.push(polishing);
    presets.push(translation);
    presets
}

/// Preset selected in a fresh rewriter config.
pub fn default_active_preset_id() -> (r: String)
    ensures
        r@ == "polishing"@,
{
    "polishing".to_owned()
}

impl Default for LlmConfig {
    /// A fresh rewriter config: the default endpoint and model, no key,
    /// the two stock presets, polishing selected.
    fn default() -> (r: Self)
        ensures
            r.endpoint@ == "https://open.bigmodel.cn/api/paas/v4/chat/completions"@,
            r.model@ == "glm-4-flash-250414"@,
            r.api_key@.len() == 0,
            r.presets@.len() == 2,
            r.active_preset_id@ == "polishing"@,
    {
        LlmConfig {
            endpoint: default_llm_endpoint(),
            model: default_llm_model(),
            api_key: String::new(),
            presets: default_presets(),
            active_preset_id: default_active_preset_id(),
        }
    }
}

// ===========================================================================
// Assistant configuration
// ===========================================================================

/// Default system prompt of the retained smart-command layout (question
/// answering).
pub const DEFAULT_SMART_COMMAND_PROMPT: &'static str = "你是一个智能语音助手。用户会通过语音向你提问，你需要：\n1. 理解用户的问题\n2. 给出简洁、准确、有用的回答\n3. 如果问题不够明确，给出最可能的解答\n\n注意：\n- 回答要简洁明了，适合直接粘贴使用\n- 避免过多的解释和废话\n- 如果是代码相关问题，直接给出代码";

/// Default assistant system prompt when no text is selected (question
/// answering).
pub const DEFAULT_ASSISTANT_QA_PROMPT: &'static str = "你是一个智能语音助手。用户会通过语音向你提问，你需要：\n1. 理解用户的问题\n2. 给出简洁、准确、有用的回答\n3. 如果问题不够明确，给出最可能的解答\n\n注意：\n- 回答要简洁明了，适合直接粘贴使用\n- 避免过多的解释和废话\n- 如果是代码相关问题，直接给出代码";

/// Default assistant system prompt when a selection is being processed.
pub const DEFAULT_ASSISTANT_TEXT_PROCESSING_PROMPT: &'static str = "你是一个文本处理专家。用户选中了一段文本，并给出了处理指令，你需要：\n1. 根据用户的指令对文本进行相应处理（润色、翻译、解释、修改等）\n2. 直接输出处理后的结果，不要添加多余的解释\n3. 保持原文的格式和结构（除非用户要求改变）\n\n常见任务示例：\n- \"润色\" / \"改得更专业\" → 优化表达，提升文笔\n- \"翻译成英文\" → 输出英文翻译结果\n- \"解释这段代码\" → 用简洁的语言说明代码功能\n- \"修复语法错误\" → 纠正错别字和语法问题\n- \"总结\" → 提炼核心要点\n\n注意：直接输出处理结果，不要添加\"这是修改后的版本\"之类的前缀。";

/// Retained smart-command layout: one endpoint, one model, one prompt.
/// Kept so that older files still load; it migrates into the assistant
/// config.
#[derive(Clone, Debug)]
pub struct SmartCommandConfig {
    pub enabled: bool,
    pub endpoint: String,
    pub model: String,
    pub api_key: String,
    pub system_prompt: String,
}

/// The assistant: endpoint, model, key, and one system prompt per shape
/// of request (plain question, selected-text processing).
#[derive(Clone, Debug)]
pub struct AssistantConfig {
    pub enabled: bool,
    pub endpoint: String,
    pub model: String,
    pub api_key: String,
    pub qa_system_prompt: String,
    pub text_processing_system_prompt: String,
}

pub fn default_smart_command_endpoint() -> (r: String)
    ensures
        r@ == "https://open.bigmodel.cn/api/paas/v4/chat/completions"@,
{
    "https://open.bigmodel.cn/api/paas/v4/chat/completions".to_owned()
}

pub fn default_smart_command_model() -> (r: String)
    ensures
        r@ == "glm-4-flash-250414"@,
{
    "glm-4-flash-250414".to_owned()
}

pub fn default_smart_command_prompt() -> (r: String)
    ensures
        r@ == DEFAULT_SMART_COMMAND_PROMPT@,
{
    DEFAULT_SMART_COMMAND_PROMPT.to_owned()
}

pub fn default_assistant_endpoint() -> (r: String)
    ensures
        r@ == "https://open.bigmodel.cn/api/paas/v4/chat/completions"@,
{
    "https://open.bigmodel.cn/api/paas/v4/chat/completions".to_owned()
}

pub fn default_assistant_model() -> (r: String)
    ensures
        r@ == "glm-4-flash-250414"@,
{
    "glm-4-flash-250414".to_owned()
}

pub fn default_assistant_qa_prompt() -> (r: String)
    ensures
        r@ == DEFAULT_ASSISTANT_QA_PROMPT@,
{
    DEFAULT_ASSISTANT_QA_PROMPT.to_owned()
}

pub fn default_assistant_text_processing_prompt() -> (r: String)
    ensures
        r@ == DEFAULT_ASSISTANT_TEXT_PROCESSING_PROMPT@,
{
    DEFAULT_ASSISTANT_TEXT_PROCESSING_PROMPT.to_owned()
}

impl Default for SmartCommandConfig {
    /// Disabled, with the stock endpoint, model and prompt and no key.
    fn default() -> (r: Self)
        ensures
            !r.enabled,
            r.endpoint@ == "https://open.bigmodel.cn/api/paas/v4/chat/completions"@,
            r.model@ == "glm-4-flash-250414"@,
            r.api_key@.len() == 0,
            r.system_prompt@ == DEFAULT_SMART_COMMAND_PROMPT@,
    {
        SmartCommandConfig {
            enabled: false,
            endpoint: default_smart_command_endpoint(),
            model: default_smart_command_model(),
            api_key: String::new(),
            system_prompt: default_smart_command_prompt(),
        }
    }
}

impl Default for AssistantConfig {
    /// Disabled, with the stock endpoint, model and prompts and no key.
    fn default() -> (r: Self)
        ensures
            !r.enabled,
            r.endpoint@ == "https://open.bigmodel.cn/api/paas/v4/chat/completions"@,
            r.model@ == "glm-4-flash-250414"@,
            r.api_key@.len() == 0,
            r.qa_system_prompt@ == DEFAULT_ASSISTANT_QA_PROMPT@,
            r.text_processing_system_prompt@ == DEFAULT_ASSISTANT_TEXT_PROCESSING_PROMPT@,
    {
        AssistantConfig {
            enabled: false,
            endpoint: default_assistant_endpoint(),
            model: default_assistant_model(),
            api_key: String::new(),
            qa_system_prompt: default_assistant_qa_prompt(),
            text_processing_system_prompt: default_assistant_text_processing_prompt(),
        }
    }
}

/// A smart-command config is usable when key, endpoint and model are all
/// filled in.
pub open spec fn spec_smart_command_valid(c: SmartCommandConfig) -> bool {
    c.api_key@.len() > 0 && c.endpoint@.len() > 0 && c.model@.len() > 0
}

/// An assistant config is usable when key, endpoint and model are all
/// filled in.
pub open spec fn spec_assistant_valid(c: AssistantConfig) -> bool {
    c.api_key@.len() > 0 && c.endpoint@.len() > 0 && c.model@.len() > 0
}

impl SmartCommandConfig {
    /// Whether the config can be used: key, endpoint and model filled in.
    pub fn is_valid(&self) -> (r: bool)
        ensures
            r == spec_smart_command_valid(*self),
    {
        !self.api_key.as_str().is_empty() && !self.endpoint.as_str().is_empty()
            && !self.model.as_str().is_empty()
    }
}

impl AssistantConfig {
    /// Whether the config can be used: key, endpoint and model filled in.
    pub fn is_valid(&self) -> (r: bool)
        ensures
            r == spec_assistant_valid(*self),
    {
        !self.api_key.as_str().is_empty() && !self.endpoint.as_str().is_empty()
            && !self.model.as_str().is_empty()
    }
}

/// Streaming recognition is preferred unless switched off.
pub fn default_use_realtime_asr() -> (r: bool)
    ensures
        r,
{
    true
}

/// The stock dual binding — dictation Ctrl+Win with the F2 release-lock
/// chord, assistant Alt+Space — passes validation.
pub proof fn lemma_stock_dual_validates(d: DualHotkeyConfig)
    requires
        d.dictation.keys@ == seq![HotkeyKey::ControlLeft, HotkeyKey::MetaLeft],
        d.dictation.release_mode_keys matches Some(rel) && rel@ == seq![HotkeyKey::F2],
        d.assistant.keys@ == seq![HotkeyKey::AltLeft, HotkeyKey::Space],
        d.assistant.release_mode_keys is None,
    ensures
        spec_validate_dual(d) is Ok,
{
    let dict = d.dictation.keys@;
    let asst = d.assistant.keys@;
    assert(spec_binding_wf(d.dictation)) by {
        assert(spec_has_modifier(dict)) by {
            assert(spec_is_modifier(dict[0]));
        }
        match d.dictation.release_mode_keys {
            Some(rel) => {
                assert(spec_has_function_key(rel@)) by {
                    assert(spec_is_function_key(rel@[0]));
                }
                assert(key_set(rel@).contains(HotkeyKey::F2));
                assert(!key_set(dict).contains(HotkeyKey::F2)) by {
                    assert(forall|j: int| 0 <= j < dict.len() ==> dict[j] != HotkeyKey::F2);
                }
            },
            None => {},
        }
    }
    assert(spec_binding_wf(d.assistant)) by {
        assert(spec_has_modifier(asst)) by {
            assert(spec_is_modifier(asst[0]));
        }
    }
    lemma_validate_binding_ok_iff_wf(d.dictation);
    lemma_validate_binding_ok_iff_wf(d.assistant);
    assert(key_set(dict).contains(HotkeyKey::ControlLeft));
    assert(!key_set(asst).contains(HotkeyKey::ControlLeft)) by {
        assert(forall|j: int| 0 <= j < asst.len() ==> asst[j] != HotkeyKey::ControlLeft);
    }
    assert(key_set(asst).contains(HotkeyKey::AltLeft));
    assert(!key_set(dict).contains(HotkeyKey::AltLeft)) by {
        assert(forall|j: int| 0 <= j < dict.len() ==> dict[j] != HotkeyKey::AltLeft);
    }
    assert(!key_set(dict).subset_of(key_set(asst)));
    assert(!key_set(asst).subset_of(key_set(dict)));
}

impl Default for DualHotkeyConfig {
    /// The default pair: the default dictation and assistant bindings.
    fn default() -> (r: Self)
        ensures
            r.dictation.keys@ =~= seq![HotkeyKey::ControlLeft, HotkeyKey::MetaLeft],
            r.dictation.mode == HotkeyMode::Press,
            r.dictation.release_mode_keys matches Some(rel) && rel@ =~= seq![HotkeyKey::F2],
            r.assistant.keys@ =~= seq![HotkeyKey::AltLeft, HotkeyKey::Space],
            r.assistant.mode == HotkeyMode::Press,
            r.assistant.release_mode_keys is None,
            spec_validate_dual(r) is Ok,
    {
        let r = DualHotkeyConfig {
            dictation: default_dictation_hotkey(),
            assistant: default_assistant_hotkey(),
        };
        proof {
            lemma_stock_dual_validates(r);
        }
        r
    }
}

// ===========================================================================
// Application configuration
// ===========================================================================

/// Everything the daemon is configured with. Older layouts carry their
/// settings in the legacy fields (`dashscope_api_key`,
/// `siliconflow_api_key`, `hotkey_config`, `smart_command_config`);
/// `migrate` moves them forward.
#[derive(Clone, Debug)]
pub struct AppConfig {
    /// Legacy single Qwen key; superseded by `asr_config`.
    pub dashscope_api_key: String,
    /// Legacy SiliconFlow key; superseded by `asr_config`.
    pub siliconflow_api_key: String,
    pub asr_config: AsrConfig,
    pub use_realtime_asr: bool,
    pub enable_llm_post_process: bool,
    pub llm_config: LlmConfig,
    /// Legacy assistant layout; superseded by `assistant_config`.
    pub smart_command_config: SmartCommandConfig,
    pub assistant_config: AssistantConfig,
    /// `"close"`, `"minimize"`, or none to ask each time.
    pub close_action: Option<String>,
    /// Legacy single binding; superseded by `dual_hotkey_config`.
    pub hotkey_config: Option<HotkeyConfig>,
    pub dual_hotkey_config: DualHotkeyConfig,
    pub transcription_mode: TranscriptionMode,
}

impl AppConfig {
    /// A fresh configuration with every field at its default.
    pub fn new() -> (r: Self)
        ensures
            r.dashscope_api_key@.len() == 0,
            r.siliconflow_api_key@.len() == 0,
            r.asr_config.primary.provider == AsrProvider::Qwen,
            r.asr_config.primary.api_key@.len() == 0,
            r.asr_config.fallback is None,
            !r.asr_config.enable_fallback,
            r.use_realtime_asr,
            !r.enable_llm_post_process,
            !r.smart_command_config.enabled,
            !r.assistant_config.enabled,
            r.close_action is None,
            r.hotkey_config is None,
            spec_dual_is_stock(r.dual_hotkey_config),
            r.dual_hotkey_config.dictation.mode == HotkeyMode::Press,
            r.dual_hotkey_config.dictation.release_mode_keys matches Some(rel) && rel@ =~= seq![
                HotkeyKey::F2,
            ],
            r.dual_hotkey_config.assistant.mode == HotkeyMode::Press,
            spec_validate_dual(r.dual_hotkey_config) is Ok,
            r.transcription_mode == TranscriptionMode::Normal,
    {
        AppConfig {
            dashscope_api_key: String::new(),
            siliconflow_api_key: String::new(),
            asr_config: AsrConfig::default(),
            use_realtime_asr: default_use_realtime_asr(),
            enable_llm_post_process: false,
            llm_config: LlmConfig::default(),
            smart_command_config: SmartCommandConfig::default(),
            assistant_config: AssistantConfig::default(),
            close_action: None,
            hotkey_config: None,
            dual_hotkey_config: DualHotkeyConfig::default(),
            transcription_mode: TranscriptionMode::default(),
        }
    }
}

impl AppConfig {
    /// Builds the configuration the save command persists, from what the
    /// settings window hands over: absent parts take their defaults, and
    /// an absent recognizer config is reconstructed from the two plain
    /// keys — the primary key as the Qwen provider and, when the
    /// fallback key is filled in, that key as a SiliconFlow fallback
    /// with the race enabled.
    pub fn assemble(
        api_key: String,
        fallback_api_key: String,
        use_realtime: Option<bool>,
        enable_post_process: Option<bool>,
        llm_config: Option<LlmConfig>,
        smart_command_config: Option<SmartCommandConfig>,
        close_action: Option<String>,
        asr_config: Option<AsrConfig>,
        hotkey_config: Option<HotkeyConfig>,
        dual_hotkey_config: Option<DualHotkeyConfig>,
        assistant_config: Option<AssistantConfig>,
    ) -> (r: AppConfig)
        ensures
            r.dashscope_api_key@ == api_key@,
            r.siliconflow_api_key@ == fallback_api_key@,
            // a given recognizer config is taken as it is
            asr_config matches Some(given) ==> r.asr_config == given,
            // an absent one is rebuilt from the plain keys
            asr_config is None ==> {
                &&& r.asr_config.primary.provider == AsrProvider::Qwen
                &&& r.asr_config.primary.api_key@ == api_key@
                &&& r.asr_config.primary.app_id is None
                &&& r.asr_config.primary.access_token is None
                &&& r.asr_config.enable_fallback == (fallback_api_key@.len() > 0)
                &&& fallback_api_key@.len() > 0 ==> (r.asr_config.fallback matches Some(fb)
                    && fb.provider == AsrProvider::SiliconFlow && fb.api_key@
                    == fallback_api_key@)
                &&& fallback_api_key@.len() == 0 ==> r.asr_config.fallback is None
            },
            r.use_realtime_asr == (match use_realtime {
                Some(b) => b,
                None => true,
            }),
            r.enable_llm_post_process == (match enable_post_process {
                Some(b) => b,
                None => false,
            }),
            llm_config matches Some(given) ==> r.llm_config == given,
            smart_command_config matches Some(given) ==> r.smart_command_config == given,
            assistant_config matches Some(given) ==> r.assistant_config == given,
            dual_hotkey_config matches Some(given) ==> r.dual_hotkey_config == given,
            r.close_action == close_action,
            r.hotkey_config == hotkey_config,
            r.transcription_mode == TranscriptionMode::Normal,
    {
        let has_fallback = !fallback_api_key.as_str().is_empty();
        let asr_config = match asr_config {
            Some(given) => given,
            None => AsrConfig {
                primary: AsrProviderConfig {
                    provider: AsrProvider::Qwen,
                    api_key: api_key.clone(),
                    app_id: None,
                    access_token: None,
                },
                fallback: if has_fallback {
                    Some(
                        AsrProviderConfig {
                            provider: AsrProvider::SiliconFlow,
                            api_key: fallback_api_key.clone(),
                            app_id: None,
                            access_token: None,
                        },
                    )
                } else {
                    None
                },
                enable_fallback: has_fallback,
            },
        };
        AppConfig {
            dashscope_api_key: api_key,
            siliconflow_api_key: fallback_api_key,
            asr_config,
            use_realtime_asr: match use_realtime {
                Some(b) => b,
                None => true,
            },
            enable_llm_post_process: match enable_post_process {
                Some(b) => b,
                None => false,
            },
            llm_config: match llm_config {
                Some(given) => given,
                None => LlmConfig::default(),
            },
            smart_command_config: match smart_command_config {
                Some(given) => given,
                None => SmartCommandConfig::default(),
            },
            assistant_config: match assistant_config {
                Some(given) => given,
                None => AssistantConfig::default(),
            },
            close_action,
            hotkey_config,
            dual_hotkey_config: match dual_hotkey_config {
                Some(given) => given,
                None => DualHotkeyConfig::default(),
            },
            transcription_mode: TranscriptionMode::default(),
        }
    }
}

// ===========================================================================
// Forward migration of older layouts
// ===========================================================================

/// The recognizer credentials need migrating when the new layout holds no
/// key but the legacy Qwen key is filled in.
pub open spec fn spec_needs_asr_migration(c: AppConfig) -> bool {
    c.asr_config.primary.api_key@.len() == 0 && c.dashscope_api_key@.len() > 0
}

/// The dual binding still stands at its stock values, so a legacy single
/// binding may take the dictation slot.
pub open spec fn spec_dual_is_stock(d: DualHotkeyConfig) -> bool {
    d.dictation.keys@ == seq![HotkeyKey::ControlLeft, HotkeyKey::MetaLeft]
        && d.assistant.keys@ == seq![HotkeyKey::AltLeft, HotkeyKey::Space]
}

/// The smart-command settings need migrating when they are enabled and
/// usable while the assistant config is not yet usable.
pub open spec fn spec_needs_assistant_migration(c: AppConfig) -> bool {
    c.smart_command_config.enabled && spec_smart_command_valid(c.smart_command_config)
        && !spec_assistant_valid(c.assistant_config)
}

/// Whether the dual binding stands at its stock chords.
fn dual_is_stock(d: &DualHotkeyConfig) -> (r: bool)
    ensures
        r == spec_dual_is_stock(*d),
{
    let dict_stock = d.dictation.keys.len() == 2 && d.dictation.keys[0] == HotkeyKey::ControlLeft
        && d.dictation.keys[1] == HotkeyKey::MetaLeft;
    let asst_stock = d.assistant.keys.len() == 2 && d.assistant.keys[0] == HotkeyKey::AltLeft
        && d.assistant.keys[1] == HotkeyKey::Space;
    proof {
        if dict_stock {
            assert(d.dictation.keys@ =~= seq![HotkeyKey::ControlLeft, HotkeyKey::MetaLeft]);
        }
        if d.dictation.keys@ == seq![HotkeyKey::ControlLeft, HotkeyKey::MetaLeft] {
            assert(d.dictation.keys@.len() == 2);
            assert(d.dictation.keys@[0] == HotkeyKey::ControlLeft);
            assert(d.dictation.keys@[1] == HotkeyKey::MetaLeft);
        }
        if asst_stock {
            assert(d.assistant.keys@ =~= seq![HotkeyKey::AltLeft, HotkeyKey::Space]);
        }
        if d.assistant.keys@ == seq![HotkeyKey::AltLeft, HotkeyKey::Space] {
            assert(d.assistant.keys@.len() == 2);
            assert(d.assistant.keys@[0] == HotkeyKey::AltLeft);
            assert(d.assistant.keys@[1] == HotkeyKey::Space);
        }
    }
    dict_stock && asst_stock
}

impl AppConfig {
    /// Moves the settings of older file layouts into their current
    /// places: a lone Qwen key becomes the primary provider (with the
    /// SiliconFlow key as racing fallback, if filled in); a legacy single
    /// binding takes the dictation slot while the dual binding is stock;
    /// enabled, usable smart-command settings become the assistant config
    /// and are then switched off.
    pub fn migrate(self) -> (r: AppConfig)
        ensures
            // recognizer credentials
            spec_needs_asr_migration(self) ==> {
                &&& r.asr_config.primary.provider == AsrProvider::Qwen
                &&& r.asr_config.primary.api_key@ == self.dashscope_api_key@
                &&& r.asr_config.primary.app_id is None
                &&& r.asr_config.primary.access_token is None
            },
            spec_needs_asr_migration(self) && self.siliconflow_api_key@.len() > 0 ==> {
                &&& r.asr_config.fallback matches Some(fb) && fb.provider
                    == AsrProvider::SiliconFlow && fb.api_key@ == self.siliconflow_api_key@
                &&& r.asr_config.enable_fallback
            },
            spec_needs_asr_migration(self) && self.siliconflow_api_key@.len() == 0 ==> {
                &&& r.asr_config.fallback == self.asr_config.fallback
                &&& r.asr_config.enable_fallback == self.asr_config.enable_fallback
            },
            !spec_needs_asr_migration(self) ==> r.asr_config == self.asr_config,
            // single binding into the dictation slot
            r.hotkey_config is None,
            self.hotkey_config matches Some(legacy) ==> spec_dual_is_stock(
                self.dual_hotkey_config,
            ) ==> r.dual_hotkey_config.dictation == legacy,
            (self.hotkey_config is None || !spec_dual_is_stock(self.dual_hotkey_config))
                ==> r.dual_hotkey_config.dictation == self.dual_hotkey_config.dictation,
            r.dual_hotkey_config.assistant == self.dual_hotkey_config.assistant,
            // smart command into the assistant config
            spec_needs_assistant_migration(self) ==> {
                &&& r.assistant_config.enabled == self.smart_command_config.enabled
                &&& r.assistant_config.endpoint@ == self.smart_command_config.endpoint@
                &&& r.assistant_config.model@ == self.smart_command_config.model@
                &&& r.assistant_config.api_key@ == self.smart_command_config.api_key@
                &&& r.assistant_config.qa_system_prompt@
                    == self.smart_command_config.system_prompt@
                &&& r.assistant_config.text_processing_system_prompt@
                    == DEFAULT_ASSISTANT_TEXT_PROCESSING_PROMPT@
                &&& !r.smart_command_config.enabled
            },
            !spec_needs_assistant_migration(self) ==> {
                &&& r.assistant_config == self.assistant_config
                &&& r.smart_command_config == self.smart_command_config
            },
            // fields no migration touches
            r.dashscope_api_key == self.dashscope_api_key,
            r.siliconflow_api_key == self.siliconflow_api_key,
            r.use_realtime_asr == self.use_realtime_asr,
            r.enable_llm_post_process == self.enable_llm_post_process,
            r.llm_config == self.llm_config,
            r.close_action == self.close_action,
            r.transcription_mode == self.transcription_mode,
    {
        let mut config = self;

        if config.asr_config.primary.api_key.as_str().is_empty()
            && !config.dashscope_api_key.as_str().is_empty() {
            config.asr_config.primary = AsrProviderConfig {
                provider: AsrProvider::Qwen,
                api_key: config.dashscope_api_key.clone(),
                app_id: None,
                access_token: None,
            };
            if !config.siliconflow_api_key.as_str().is_empty() {
                config.asr_config.fallback = Some(
                    AsrProviderConfig {
                        provider: AsrProvider::SiliconFlow,
                        api_key: config.siliconflow_api_key.clone(),
                        app_id: None,
                        access_token: None,
                    },
                );
                config.asr_config.enable_fallback = true;
            }
        }

        let old_hotkey = config.hotkey_config.take();
        if let Some(old_hotkey) = old_hotkey {
            if dual_is_stock(&config.dual_hotkey_config) {
                config.dual_hotkey_config.dictation = old_hotkey;
            }
        }

        if config.smart_command_config.enabled && config.smart_command_config.is_valid()
            && !config.assistant_config.is_valid() {
            config.assistant_config = AssistantConfig {
                enabled: config.smart_command_config.enabled,
                endpoint: config.smart_command_config.endpoint.clone(),
                model: config.smart_command_config.model.clone(),
                api_key: config.smart_command_config.api_key.clone(),
                qa_system_prompt: config.smart_command_config.system_prompt.clone(),
                text_processing_system_prompt: default_assistant_text_processing_prompt(),
            };
            config.smart_command_config.enabled = false;
        }

        config
    }
}

} // verus!
