//! Editing text with an AI: a session of its own, which changes nothing in the
//! document until its result is accepted.
//!
//! The caller keeps the romaji converter and runs the requests; what the converter
//! shows comes in as `typed`.
use vstd::prelude::*;
use vstd::string::*;
use crate::action::UserAction;
use crate::text;
use crate::text::{char_is_whitespace, chars_of, concat2, decimal_text, string_of};
use crate::wrap::wrap;
use crate::wrap;

verus! {

/// How many characters a row of the result holds.
pub const ROW_CHARS: usize = 24;

/// How many rows a page of the result holds.
pub const PAGE_ROWS: usize = 5;

/// How much of the end of an instruction is shown.
pub const INSTRUCTION_TAIL: usize = 120;

/// How long an instruction may get, in bytes.
pub const INSTRUCTION_BYTES: usize = 6000;

/// The longest text that is handed to the AI, in UTF-16 units.
pub const MAX_TEXT_UNITS: usize = 8192;

pub const VK_BACK: u16 = 0x08;

pub const VK_TAB: u16 = 0x09;

pub const VK_RETURN: u16 = 0x0d;

pub const VK_ESCAPE: u16 = 0x1b;

pub const VK_SPACE: u16 = 0x20;

pub const VK_PRIOR: u16 = 0x21;

pub const VK_NEXT: u16 = 0x22;

// Settings

/// Whether the AI can be called, and with which key.
#[derive(Clone, Debug)]
pub struct Config {
    pub enabled: bool,
    pub key: String,
}

impl Default for Config {
    fn default() -> (r: Self)
        ensures
            !r.enabled,
            r.key@ == "Henkan"@,
    {
        Config { enabled: false, key: "Henkan".to_owned() }
    }
}

/// Settings as last read, with the stamp of their file and the time of the look.
pub struct ConfigCache {
    pub stamp: Option<u128>,
    pub config: Config,
    pub checked_ms: u64,
}

impl ConfigCache {
    /// Whether the file is looked at again: not twice in half a second.
    pub open spec fn look_due(self, now_ms: u64) -> bool {
        now_ms > self.checked_ms + 500
    }

    pub fn is_look_due(&self, now_ms: u64) -> (r: bool)
        ensures
            r == self.look_due(now_ms),
    {
        now_ms > self.checked_ms && now_ms - self.checked_ms > 500
    }
}

/// Takes in a look at the settings file. A changed stamp brings what the file
/// holds, or the defaults where it cannot be read.
pub fn config(cache: &mut ConfigCache, now_ms: u64, stamp: Option<u128>, loaded: Option<Config>)
    ensures
        !old(cache).look_due(now_ms) ==> *final(cache) == *old(cache),
        old(cache).look_due(now_ms) ==> {
            &&& final(cache).checked_ms == now_ms
            &&& final(cache).stamp == stamp
            &&& stamp == old(cache).stamp ==> final(cache).config == old(cache).config
            &&& stamp != old(cache).stamp && loaded is Some ==> final(cache).config == loaded->0
            &&& stamp != old(cache).stamp && loaded is None ==> !final(cache).config.enabled
                && final(cache).config.key@ == "Henkan"@
        },
{
    if !cache.is_look_due(now_ms) {
        return;
    }
    cache.checked_ms = now_ms;
    let same = match (stamp, cache.stamp) {
        (Some(a), Some(b)) => a == b,
        (None, None) => true,
        _ => false,
    };
    if !same {
        cache.stamp = stamp;
        cache.config = match loaded {
            Some(c) => c,
            None => Config::default(),
        };
    }
}

/// A key with the modifiers that it needs.
#[derive(Clone, Copy, Debug, PartialEq, Eq, Structural)]
pub struct KeySpec {
    pub vk: u16,
    pub ctrl: bool,
    pub shift: bool,
    pub alt: bool,
}

/// Whether a key calls the AI. `spec` is the key of the settings, nothing where it
/// does not name one.
pub fn shortcut(
    enabled: bool,
    spec: Option<KeySpec>,
    vk: u16,
    ctrl: bool,
    shift: bool,
    alt: bool,
) -> (r: bool)
    ensures
        r == (enabled && spec == Some(KeySpec { vk, ctrl, shift, alt })),
{
    if !enabled {
        return false;
    }
    match spec {
        Some(s) => s.vk == vk && s.ctrl == ctrl && s.shift == shift && s.alt == alt,
        None => false,
    }
}

// The session

/// What the AI gave back.
pub struct Reply {
    pub text: String,
    pub append: bool,
    pub elapsed_ms: u64,
    pub error: Option<String>,
    pub language: String,
}

#[verifier::ext_equal]
pub struct ReplyModel {
    pub text: Seq<char>,
    pub append: bool,
    pub elapsed_ms: u64,
    pub error: Option<Seq<char>>,
    pub language: Seq<char>,
}

impl View for Reply {
    type V = ReplyModel;

    open spec fn view(&self) -> ReplyModel {
        ReplyModel {
            text: self.text@,
            append: self.append,
            elapsed_ms: self.elapsed_ms,
            error: text::opt_string(self.error),
            language: self.language@,
        }
    }
}

pub struct Session {
    /// The text of the document that is worked on.
    pub target: Option<String>,
    pub instruction: String,
    pub result: Option<Reply>,
    /// The result that the next one is to correct.
    pub previous: String,
    pub last_instruction: String,
    pub append: bool,
    pub language: String,
    /// A request runs.
    pub busy: bool,
    /// The request in flight is to be given up.
    pub cancel: bool,
    pub message: String,
    pub page: usize,
}

#[verifier::ext_equal]
pub struct SessionView {
    pub target: Option<Seq<char>>,
    pub instruction: Seq<char>,
    pub result: Option<ReplyModel>,
    pub previous: Seq<char>,
    pub last_instruction: Seq<char>,
    pub append: bool,
    pub language: Seq<char>,
    pub busy: bool,
    pub cancel: bool,
    pub message: Seq<char>,
    pub page: int,
}

pub open spec fn opt_reply(r: Option<Reply>) -> Option<ReplyModel> {
    match r {
        Some(x) => Some(x@),
        None => None,
    }
}

impl View for Session {
    type V = SessionView;

    open spec fn view(&self) -> SessionView {
        SessionView {
            target: text::opt_string(self.target),
            instruction: self.instruction@,
            result: opt_reply(self.result),
            previous: self.previous@,
            last_instruction: self.last_instruction@,
            append: self.append,
            language: self.language@,
            busy: self.busy,
            cancel: self.cancel,
            message: self.message@,
            page: self.page as int,
        }
    }
}

/// Nothing but white space.
pub open spec fn blank(t: Seq<char>) -> bool {
    forall|i: int| 0 <= i < t.len() ==> text::is_whitespace(#[trigger] t[i])
}

fn is_blank(t: &str) -> (r: bool)
    ensures
        r == blank(t@),
{
    let chars: Vec<char> = chars_of(t);
    let mut i: usize = 0;
    while i < chars.len()
        invariant
            i <= chars@.len(),
            chars@ == t@,
            forall|k: int| 0 <= k < i ==> text::is_whitespace(#[trigger] chars@[k]),
        decreases chars@.len() - i,
    {
        if !char_is_whitespace(chars[i]) {
            assert(!text::is_whitespace(t@[i as int]));
            return false;
        }
        i = i + 1;
    }
    true
}

/// Whether a text may be handed to the AI: its field can be written to and is no
/// password field.
pub fn capture_allowed(read_only: bool, password: bool) -> (r: bool)
    ensures
        r == (!read_only && !password),
{
    !read_only && !password
}

/// The text of a field, from its UTF-16 units. Nothing where it is too long or is
/// no text.
pub fn text_of_range(units: &[u16]) -> (r: Option<String>)
    ensures
        r is Some == (units@.len() <= MAX_TEXT_UNITS && crate::wide::well_formed(units@)),
        r is Some ==> r->0@ == crate::wide::decoded(units@),
{
    if units.len() > MAX_TEXT_UNITS {
        return None;
    }
    crate::wide::from_wide_checked(units)
}

pub open spec fn new_session(target: Seq<char>) -> SessionView {
    SessionView {
        target: Some(target),
        instruction: Seq::empty(),
        result: None,
        previous: Seq::empty(),
        last_instruction: Seq::empty(),
        append: true,
        language: "japanese"@,
        busy: false,
        cancel: false,
        message: Seq::empty(),
        page: 0,
    }
}

/// Begins a session on a text and starts the first request. Blank text gives none.
pub fn begin(original: &str) -> (r: Option<(Session, String)>)
    ensures
        match r {
            None => blank(original@),
            Some((s, request)) => !blank(original@) && s@ == new_session(original@).started()
                && request@ == new_session(original@).request(),
        },
{
    if is_blank(original) {
        return None;
    }
    let mut s = Session {
        target: Some(original.to_owned()),
        instruction: String::new(),
        result: None,
        previous: String::new(),
        last_instruction: String::new(),
        append: true,
        language: "japanese".to_owned(),
        busy: false,
        cancel: false,
        message: String::new(),
        page: 0,
    };
    match start(&mut s) {
        Some(request) => Some((s, request)),
        None => None,
    }
}

/// The JSON text of an object with text and truth values under the given keys, as
/// serde_json writes it.
pub uninterp spec fn json_object_of(
    texts: Seq<(Seq<char>, Seq<char>)>,
    flags: Seq<(Seq<char>, bool)>,
) -> Seq<char>;

pub open spec fn text_fields(v: Seq<(String, String)>) -> Seq<(Seq<char>, Seq<char>)> {
    v.map_values(|p: (String, String)| (p.0@, p.1@))
}

pub open spec fn flag_fields(v: Seq<(String, bool)>) -> Seq<(Seq<char>, bool)> {
    v.map_values(|p: (String, bool)| (p.0@, p.1))
}

/// `serde_json::Value::to_string` on an object: the keys and values, taken over
/// one for one into a `serde_json::Map`, determine the text.
#[verifier::external_body]
fn json_object(texts: Vec<(String, String)>, flags: Vec<(String, bool)>) -> (r: String)
    ensures
        r@ == json_object_of(text_fields(texts@), flag_fields(flags@)),
{
    let mut object: serde_json::Map<String, serde_json::Value> = serde_json::Map::new();
    object.extend(texts.into_iter().map(|(k, v)| (k, serde_json::Value::from(v))));
    object.extend(flags.into_iter().map(|(k, v)| (k, serde_json::Value::from(v))));
    serde_json::Value::Object(object).to_string()
}

/// The request for a text, as JSON.
pub open spec fn request_text(
    target: Seq<char>,
    instruction: Seq<char>,
    previous: Seq<char>,
    append: bool,
    language: Seq<char>,
) -> Seq<char> {
    json_object_of(
        seq![
            ("text"@, target),
            ("instruction"@, instruction),
            ("previous"@, previous),
            ("language"@, language),
        ],
        seq![("append"@, append)],
    )
}

pub fn request_json(
    target: &str,
    instruction: &str,
    previous: &str,
    append: bool,
    language: &str,
) -> (r: String)
    ensures
        r@ == request_text(target@, instruction@, previous@, append, language@),
{
    let texts = vec![
        ("text".to_owned(), target.to_owned()),
        ("instruction".to_owned(), instruction.to_owned()),
        ("previous".to_owned(), previous.to_owned()),
        ("language".to_owned(), language.to_owned()),
    ];
    let flags = vec![("append".to_owned(), append)];
    assert(text_fields(texts@) =~= seq![
        ("text"@, target@),
        ("instruction"@, instruction@),
        ("previous"@, previous@),
        ("language"@, language@),
    ]);
    assert(flag_fields(flags@) =~= seq![("append"@, append)]);
    json_object(texts, flags)
}

impl SessionView {
    /// A new request runs: what the last one gave is gone, and it is given up.
    pub open spec fn started(self) -> SessionView {
        if self.target is None {
            self
        } else {
            SessionView {
                busy: true,
                cancel: false,
                result: None,
                page: 0,
                message: "AI生成中… 文字入力で補正・Escで取消"@,
                ..self
            }
        }
    }

    /// What is asked of the AI.
    pub open spec fn request(self) -> Seq<char> {
        request_text(
            self.target->0,
            self.last_instruction,
            self.previous,
            self.append,
            self.language,
        )
    }

    /// The result is not wanted: it is what the next one is to correct.
    pub open spec fn rejected(self) -> SessionView {
        SessionView {
            previous: match self.result {
                Some(r) => r.text,
                None => self.previous,
            },
            result: None,
            cancel: true,
            busy: false,
            message: "補正指示を入力してEnterで生成"@,
            page: 0,
            ..self
        }
    }
}

/// Starts a request, which replaces one that runs. Gives what is sent.
pub fn start(s: &mut Session) -> (r: Option<String>)
    ensures
        final(s)@ == old(s)@.started(),
        r is Some == old(s)@.target is Some,
        r is Some ==> r->0@ == old(s)@.request(),
{
    let request = match &s.target {
        None => {
            return None;
        },
        Some(target) => request_json(
            target.as_str(),
            s.last_instruction.as_str(),
            s.previous.as_str(),
            s.append,
            s.language.as_str(),
        ),
    };
    s.busy = true;
    s.cancel = false;
    s.result = None;
    s.page = 0;
    s.message = "AI生成中… 文字入力で補正・Escで取消".to_owned();
    Some(request)
}

pub fn reject(s: &mut Session)
    ensures
        final(s)@ == old(s)@.rejected(),
{
    let taken = s.result.take();
    if let Some(result) = taken {
        s.previous = result.text;
    }
    s.cancel = true;
    s.busy = false;
    s.message = "補正指示を入力してEnterで生成".to_owned();
    s.page = 0;
}

/// The message with which a result is shown.
pub open spec fn done_message(elapsed_ms: u64) -> Seq<char> {
    text::decimal(elapsed_ms as nat) + " ms ・Enter 採用・文字入力 補正・Tab 別候補"@
}

impl SessionView {
    /// The reply to a request, or why there is none.
    pub open spec fn replied(self, reply: Result<ReplyModel, Seq<char>>) -> SessionView {
        match reply {
            Ok(r) => match r.error {
                None => SessionView {
                    busy: false,
                    append: r.append,
                    language: r.language,
                    message: done_message(r.elapsed_ms),
                    result: Some(r),
                    ..self
                },
                Some(e) => SessionView { busy: false, message: e, ..self },
            },
            Err(e) => SessionView { busy: false, message: e, ..self },
        }
    }
}

pub open spec fn reply_model(reply: Result<Reply, String>) -> Result<ReplyModel, Seq<char>> {
    match reply {
        Ok(r) => Ok(r@),
        Err(e) => Err(e@),
    }
}

/// Takes in the reply to the request that runs. A session whose document has lost
/// the focus is to be ended instead; see [`poll`].
pub fn take_reply(s: &mut Session, reply: Result<Reply, String>)
    ensures
        final(s)@ == old(s)@.replied(reply_model(reply)),
{
    s.busy = false;
    match reply {
        Ok(r) => {
            if r.error.is_none() {
                s.append = r.append;
                s.language = r.language.clone();
                let elapsed = decimal_text(r.elapsed_ms);
                s.message =
                concat2(
                    elapsed.as_str(),
                    " ms ・Enter 採用・文字入力 補正・Tab 別候補",
                );
                s.result = Some(r);
            } else if let Some(e) = r.error {
                s.message = e;
            }
        },
        Err(e) => {
            s.message = e;
        },
    }
}

/// Why a request gave nothing.
#[derive(Clone, Copy, Debug, PartialEq, Eq, Structural)]
pub enum RequestFailure {
    MissingProgram,
    SendFailed,
    Cancelled,
    ProcessEnded,
    BadReply,
}

impl RequestFailure {
    pub open spec fn message(self) -> Seq<char> {
        match self {
            RequestFailure::MissingProgram => {
                "AI実行プログラムが見つかりません。インストールを確認してください。"@
            },
            RequestFailure::SendFailed => "AI要求を送信できませんでした。"@,
            RequestFailure::Cancelled => "AI生成をキャンセルしました。"@,
            RequestFailure::ProcessEnded => "AIプロセスが終了しました。"@,
            RequestFailure::BadReply => {
                "AI応答形式が不正です。AI実行プログラムの更新を確認してください。"@
            },
        }
    }

    /// What the user is told.
    pub fn text(self) -> (r: &'static str)
        ensures
            r@ == self.message(),
    {
        match self {
            RequestFailure::MissingProgram => {
                "AI実行プログラムが見つかりません。インストールを確認してください。"
            },
            RequestFailure::SendFailed => "AI要求を送信できませんでした。",
            RequestFailure::Cancelled => "AI生成をキャンセルしました。",
            RequestFailure::ProcessEnded => "AIプロセスが終了しました。",
            RequestFailure::BadReply => {
                "AI応答形式が不正です。AI実行プログラムの更新を確認してください。"
            },
        }
    }
}

/// How long a request may run, in milliseconds.
pub const REQUEST_LIMIT_MS: u64 = 610_000;

/// What is known of the program that works on a request.
#[derive(Clone, Copy, Debug, PartialEq, Eq, Structural)]
pub enum ProgramState {
    Running,
    Exited,
    /// It cannot be watched any more.
    Lost,
}

#[derive(Clone, Copy, Debug, PartialEq, Eq, Structural)]
pub enum RequestStep {
    /// Look again in a moment.
    Wait,
    /// Read what the program wrote.
    ReadReply,
    /// End the program and give up.
    Stop { failure: RequestFailure },
}

/// Decides on a request that runs. One that is given up, or that takes too long,
/// is stopped whatever its program does.
pub fn request_step(cancelled: bool, elapsed_ms: u64, program: ProgramState) -> (r: RequestStep)
    ensures
        r == (if cancelled || elapsed_ms > REQUEST_LIMIT_MS {
            RequestStep::Stop { failure: RequestFailure::Cancelled }
        } else {
            match program {
                ProgramState::Running => RequestStep::Wait,
                ProgramState::Exited => RequestStep::ReadReply,
                ProgramState::Lost => RequestStep::Stop { failure: RequestFailure::ProcessEnded },
            }
        }),
{
    if cancelled || elapsed_ms > REQUEST_LIMIT_MS {
        return RequestStep::Stop { failure: RequestFailure::Cancelled };
    }
    match program {
        ProgramState::Running => RequestStep::Wait,
        ProgramState::Exited => RequestStep::ReadReply,
        ProgramState::Lost => RequestStep::Stop { failure: RequestFailure::ProcessEnded },
    }
}

/// What a look at a session leads to.
#[derive(Clone, Copy, Debug, PartialEq, Eq, Structural)]
pub enum PollStep {
    /// End the session.
    Cancel,
    /// Take in a reply where there is one, look at the place of the text again,
    /// and draw.
    Continue,
}

/// A session ends when its document loses the focus.
pub fn poll(focused: bool) -> (r: PollStep)
    ensures
        r == (if focused {
            PollStep::Continue
        } else {
            PollStep::Cancel
        }),
{
    if focused {
        PollStep::Continue
    } else {
        PollStep::Cancel
    }
}

#[derive(Clone, Copy, Debug, PartialEq, Eq, Structural)]
pub enum EnterIntent {
    Generate,
    Accept,
    Wait,
}

pub open spec fn intent_of_enter(
    has_instruction: bool,
    has_result: bool,
    busy: bool,
) -> EnterIntent {
    if !has_instruction && has_result {
        EnterIntent::Accept
    } else if !has_instruction && busy {
        EnterIntent::Wait
    } else {
        EnterIntent::Generate
    }
}

pub fn enter_intent(has_instruction: bool, has_result: bool, busy: bool) -> (r: EnterIntent)
    ensures
        r == intent_of_enter(has_instruction, has_result, busy),
{
    if has_instruction {
        EnterIntent::Generate
    } else if has_result {
        EnterIntent::Accept
    } else if busy {
        EnterIntent::Wait
    } else {
        EnterIntent::Generate
    }
}


// Keys

/// What happens to the romaji converter.
#[derive(Clone, Copy, Debug, PartialEq, Eq, Structural)]
pub enum RomajiOp {
    Keep,
    Reset,
    Backspace,
    Push { c: char },
}

/// What a key leads to.
pub enum AiKey {
    /// End the session.
    Cancel,
    /// Send the request, then draw.
    Generate { request: String, romaji: RomajiOp },
    /// Put the result into the document.
    Accept,
    /// Draw.
    Draw { romaji: RomajiOp },
}

#[verifier::ext_equal]
pub enum AiKeyModel {
    Cancel,
    Generate { request: Seq<char>, romaji: RomajiOp },
    Accept,
    Draw { romaji: RomajiOp },
}

impl View for AiKey {
    type V = AiKeyModel;

    open spec fn view(&self) -> AiKeyModel {
        match self {
            AiKey::Cancel => AiKeyModel::Cancel,
            AiKey::Generate { request, romaji } => AiKeyModel::Generate {
                request: request@,
                romaji: *romaji,
            },
            AiKey::Accept => AiKeyModel::Accept,
            AiKey::Draw { romaji } => AiKeyModel::Draw { romaji: *romaji },
        }
    }
}

/// Whether the romaji converter is flushed before a key is handled.
pub fn key_flushes(vk: u16) -> (r: bool)
    ensures
        r == (vk == VK_RETURN || vk == VK_SPACE),
{
    vk == VK_RETURN || vk == VK_SPACE
}

/// How many bytes a character takes in UTF-8.
pub open spec fn utf8_width(c: char) -> nat {
    if (c as u32) < 0x80 {
        1
    } else if (c as u32) < 0x800 {
        2
    } else if (c as u32) < 0x10000 {
        3
    } else {
        4
    }
}

/// How many bytes a text takes in UTF-8.
pub open spec fn utf8_len(s: Seq<char>) -> nat
    decreases s.len(),
{
    if s.len() == 0 {
        0
    } else {
        utf8_len(s.drop_last()) + utf8_width(s.last())
    }
}

proof fn lemma_utf8_len_grows(s: Seq<char>, i: int)
    requires
        0 <= i <= s.len(),
    ensures
        utf8_len(s.take(i)) <= utf8_len(s),
    decreases s.len() - i,
{
    if i < s.len() {
        lemma_utf8_len_grows(s, i + 1);
        assert(s.take(i + 1).drop_last() =~= s.take(i));
    } else {
        assert(s.take(i) =~= s);
    }
}

/// How many bytes two texts take together, counted up to the limit.
fn bytes_up_to_limit(a: &str, start: usize) -> (r: usize)
    requires
        start <= INSTRUCTION_BYTES,
    ensures
        r == (if start + utf8_len(a@) < INSTRUCTION_BYTES {
            start + utf8_len(a@)
        } else {
            INSTRUCTION_BYTES as int
        }),
{
    let chars: Vec<char> = chars_of(a);
    let n: usize = chars.len();
    let mut total: usize = start;
    let mut i: usize = 0;
    while i < n
        invariant
            i <= n,
            n == chars@.len(),
            chars@ == a@,
            start <= total < INSTRUCTION_BYTES || (i == 0 && total == start <= INSTRUCTION_BYTES),
            total == start + utf8_len(a@.take(i as int)),
        decreases n - i,
    {
        if total >= INSTRUCTION_BYTES {
            proof {
                lemma_utf8_len_grows(a@, i as int);
            }
            return INSTRUCTION_BYTES;
        }
        let code: u32 = chars[i] as u32;
        let width: usize = if code < 0x80 {
            1
        } else if code < 0x800 {
            2
        } else if code < 0x10000 {
            3
        } else {
            4
        };
        proof {
            assert(a@.take(i + 1).drop_last() =~= a@.take(i as int));
            assert(a@.take(i + 1).last() == a@[i as int]);
            lemma_utf8_len_grows(a@, i + 1);
        }
        if total + width >= INSTRUCTION_BYTES {
            return INSTRUCTION_BYTES;
        }
        total = total + width;
        i = i + 1;
    }
    assert(a@.take(n as int) =~= a@);
    if total < INSTRUCTION_BYTES {
        total
    } else {
        INSTRUCTION_BYTES
    }
}

/// Whether an instruction can get longer.
fn has_room(instruction: &str, typed: &str) -> (r: bool)
    ensures
        r == (utf8_len(instruction@) + utf8_len(typed@) < INSTRUCTION_BYTES),
{
    let first: usize = bytes_up_to_limit(instruction, 0);
    bytes_up_to_limit(typed, first) < INSTRUCTION_BYTES
}

/// The last page of a result with this many rows.
pub open spec fn last_page(rows: int) -> int {
    if rows <= 1 {
        0
    } else {
        (rows - 1) / PAGE_ROWS as int
    }
}

impl SessionView {
    /// The whole instruction: what is converted already and what is being typed.
    pub open spec fn whole_instruction(self, typed: Seq<char>) -> Seq<char> {
        self.instruction + typed
    }

    pub open spec fn max_page(self) -> int {
        match self.result {
            Some(r) => last_page(wrap::wrapped(r.text, ROW_CHARS as int).len() as int),
            None => 0,
        }
    }

    /// Enter starts a request with what was typed; without anything new it
    /// accepts the result, waits for it, or asks once more.
    pub open spec fn after_enter(self, typed: Seq<char>) -> SessionView {
        let whole = self.whole_instruction(typed);
        match intent_of_enter(whole.len() > 0, self.result is Some, self.busy) {
            EnterIntent::Generate => SessionView {
                last_instruction: if whole.len() > 0 {
                    whole
                } else {
                    self.last_instruction
                },
                instruction: Seq::empty(),
                ..self
            }.started(),
            _ => self,
        }
    }

    /// Tab asks for another result, where no request runs.
    pub open spec fn before_retry(self) -> SessionView {
        SessionView {
            previous: match self.result {
                Some(r) => r.text,
                None => self.previous,
            },
            result: None,
            ..self
        }
    }

    /// The session after a key other than Escape.
    pub open spec fn after_key(
        self,
        vk: u16,
        action: Option<UserAction>,
        typed: Seq<char>,
        converted: Seq<char>,
    ) -> SessionView {
        if vk == VK_RETURN {
            self.after_enter(typed)
        } else if vk == VK_TAB {
            if self.busy {
                self
            } else {
                self.before_retry().started()
            }
        } else if vk == VK_BACK {
            let r = self.rejected();
            if typed.len() == 0 && r.instruction.len() > 0 {
                SessionView { instruction: r.instruction.drop_last(), ..r }
            } else {
                r
            }
        } else if vk == VK_PRIOR {
            SessionView {
                page: if self.page == 0 {
                    0
                } else {
                    self.page - 1
                },
                ..self
            }
        } else if vk == VK_NEXT {
            SessionView {
                page: if self.page < self.max_page() {
                    self.page + 1
                } else {
                    self.max_page()
                },
                ..self
            }
        } else if vk == VK_SPACE {
            let r = self.rejected();
            SessionView { instruction: r.instruction + converted, ..r }
        } else if typed_by(action) is Some {
            self.rejected()
        } else {
            self
        }
    }
}

/// The character that an action types.
pub open spec fn typed_by(action: Option<UserAction>) -> Option<char> {
    match action {
        Some(UserAction::Input(c)) => Some(c),
        Some(UserAction::InputRaw(c)) => Some(c),
        _ => None,
    }
}

impl SessionView {
    /// What the caller does after a key.
    pub open spec fn key_outcome(
        self,
        vk: u16,
        action: Option<UserAction>,
        typed: Seq<char>,
    ) -> AiKeyModel {
        if vk == VK_ESCAPE {
            AiKeyModel::Cancel
        } else if vk == VK_RETURN {
            match intent_of_enter(
                self.whole_instruction(typed).len() > 0,
                self.result is Some,
                self.busy,
            ) {
                EnterIntent::Generate => if self.target is Some {
                    AiKeyModel::Generate {
                        request: self.after_enter(typed).request(),
                        romaji: RomajiOp::Reset,
                    }
                } else {
                    AiKeyModel::Draw { romaji: RomajiOp::Reset }
                },
                EnterIntent::Accept => AiKeyModel::Accept,
                EnterIntent::Wait => AiKeyModel::Draw { romaji: RomajiOp::Keep },
            }
        } else if vk == VK_TAB && !self.busy && self.target is Some {
            AiKeyModel::Generate {
                request: self.before_retry().request(),
                romaji: RomajiOp::Keep,
            }
        } else if vk == VK_BACK && typed.len() > 0 {
            AiKeyModel::Draw { romaji: RomajiOp::Backspace }
        } else if vk == VK_SPACE {
            AiKeyModel::Draw { romaji: RomajiOp::Reset }
        } else if vk != VK_TAB && vk != VK_BACK && vk != VK_PRIOR && vk != VK_NEXT && typed_by(
            action,
        ) is Some && utf8_len(self.instruction) + utf8_len(typed) < INSTRUCTION_BYTES {
            AiKeyModel::Draw { romaji: RomajiOp::Push { c: typed_by(action)->0 } }
        } else {
            AiKeyModel::Draw { romaji: RomajiOp::Keep }
        }
    }
}

/// Handles a key of a session that goes on. `typed` is what the romaji converter
/// shows, flushed where [`key_flushes`] says so; `converted` is its conversion by
/// the dictionary, which counts for the space key.
pub fn key(
    s: &mut Session,
    vk: u16,
    action: Option<UserAction>,
    typed: &str,
    converted: &str,
) -> (r: AiKey)
    ensures
        r@ == old(s)@.key_outcome(vk, action, typed@),
        final(s)@ == (if vk == VK_ESCAPE {
            old(s)@
        } else {
            old(s)@.after_key(vk, action, typed@, converted@)
        }),
{
    if vk == VK_ESCAPE {
        return AiKey::Cancel;
    }
    if vk == VK_RETURN {
        let whole = concat2(s.instruction.as_str(), typed);
        let has_instruction = whole.as_str().unicode_len() > 0;
        match enter_intent(has_instruction, s.result.is_some(), s.busy) {
            EnterIntent::Generate => {
                if has_instruction {
                    s.last_instruction = whole;
                }
                s.instruction = String::new();
                return match start(s) {
                    Some(request) => AiKey::Generate { request, romaji: RomajiOp::Reset },
                    None => AiKey::Draw { romaji: RomajiOp::Reset },
                };
            },
            EnterIntent::Accept => {
                return AiKey::Accept;
            },
            EnterIntent::Wait => {
                return AiKey::Draw { romaji: RomajiOp::Keep };
            },
        }
    }
    if vk == VK_TAB {
        if s.busy {
            return AiKey::Draw { romaji: RomajiOp::Keep };
        }
        let taken = s.result.take();
        if let Some(result) = taken {
            s.previous = result.text;
        }
        return match start(s) {
            Some(request) => AiKey::Generate { request, romaji: RomajiOp::Keep },
            None => AiKey::Draw { romaji: RomajiOp::Keep },
        };
    }
    if vk == VK_BACK {
        reject(s);
        if typed.unicode_len() == 0 {
            let _ = s.instruction.pop();
            return AiKey::Draw { romaji: RomajiOp::Keep };
        }
        return AiKey::Draw { romaji: RomajiOp::Backspace };
    }
    if vk == VK_PRIOR {
        if s.page > 0 {
            s.page = s.page - 1;
        }
        return AiKey::Draw { romaji: RomajiOp::Keep };
    }
    if vk == VK_NEXT {
        let max: usize = match &s.result {
            Some(r) => {
                let rows: usize = wrap(r.text.as_str(), ROW_CHARS).len();
                if rows <= 1 {
                    0
                } else {
                    (rows - 1) / PAGE_ROWS
                }
            },
            None => 0,
        };
        if s.page < max {
            s.page = s.page + 1;
        } else {
            s.page = max;
        }
        return AiKey::Draw { romaji: RomajiOp::Keep };
    }
    if vk == VK_SPACE {
        reject(s);
        s.instruction.append(converted);
        return AiKey::Draw { romaji: RomajiOp::Reset };
    }
    let c = match action {
        Some(UserAction::Input(c)) => Some(c),
        Some(UserAction::InputRaw(c)) => Some(c),
        _ => None,
    };
    match c {
        Some(c) => {
            reject(s);
            if has_room(s.instruction.as_str(), typed) {
                AiKey::Draw { romaji: RomajiOp::Push { c } }
            } else {
                AiKey::Draw { romaji: RomajiOp::Keep }
            }
        },
        None => AiKey::Draw { romaji: RomajiOp::Keep },
    }
}


// Drawing and accepting

/// Rows joined by line ends.
pub open spec fn join_rows(rows: Seq<Seq<char>>) -> Seq<char>
    decreases rows.len(),
{
    if rows.len() == 0 {
        Seq::empty()
    } else if rows.len() == 1 {
        rows[0]
    } else {
        join_rows(rows.drop_last()).push('\n') + rows.last()
    }
}

/// The rows of page `page`.
pub open spec fn page_rows(rows: Seq<Seq<char>>, page: int) -> Seq<Seq<char>> {
    let from = if page * PAGE_ROWS <= rows.len() {
        page * PAGE_ROWS
    } else {
        rows.len() as int
    };
    let to = if from + PAGE_ROWS <= rows.len() {
        from + PAGE_ROWS
    } else {
        rows.len() as int
    };
    rows.subrange(from, to)
}

/// The end of a text, as far as there is room for it.
pub open spec fn tail(t: Seq<char>) -> Seq<char> {
    if t.len() <= INSTRUCTION_TAIL {
        t
    } else {
        t.skip(t.len() - INSTRUCTION_TAIL)
    }
}

impl SessionView {
    /// What is shown: a page of the result, the instruction at work, or the one
    /// being typed.
    pub open spec fn shown(self, typed: Seq<char>) -> Seq<char> {
        match self.result {
            Some(r) => join_rows(
                page_rows(wrap::wrapped(r.text, ROW_CHARS as int), self.page),
            ),
            None => if self.busy {
                tail(self.last_instruction)
            } else {
                tail(self.whole_instruction(typed))
            },
        }
    }
}

/// What is drawn of a session.
pub struct Drawing {
    pub text: String,
    pub replace: bool,
    pub busy: bool,
    pub editing: bool,
}

fn tail_of(t: &str) -> (r: String)
    ensures
        r@ == tail(t@),
{
    let chars: Vec<char> = chars_of(t);
    let n: usize = chars.len();
    let from: usize = if n <= INSTRUCTION_TAIL {
        0
    } else {
        n - INSTRUCTION_TAIL
    };
    assert(chars@.subrange(from as int, n as int) =~= tail(t@));
    string_of(&chars, from, n)
}

/// The page of a result, as one text.
fn page_of(t: &str, page: usize) -> (r: String)
    ensures
        r@ == join_rows(page_rows(wrap::wrapped(t@, ROW_CHARS as int), page as int)),
{
    let rows: Vec<String> = wrap(t, ROW_CHARS);
    let ghost models = text::texts(rows@);
    let n: usize = rows.len();
    let from: usize = if page <= n / PAGE_ROWS {
        page * PAGE_ROWS
    } else {
        n
    };
    let to: usize = if n - from <= PAGE_ROWS {
        n
    } else {
        from + PAGE_ROWS
    };
    let ghost shown = page_rows(models, page as int);
    assert(shown =~= models.subrange(from as int, to as int));
    let mut r = String::new();
    let mut i: usize = from;
    while i < to
        invariant
            from <= i <= to <= rows@.len(),
            models == text::texts(rows@),
            r@ == join_rows(models.subrange(from as int, i as int)),
        decreases to - i,
    {
        let ghost longer = models.subrange(from as int, i + 1);
        assert(longer.drop_last() =~= models.subrange(from as int, i as int));
        assert(longer.last() == rows@[i as int]@);
        if i > from {
            r.push('\n');
        }
        r.append(rows[i].as_str());
        assert(r@ =~= join_rows(longer));
        i = i + 1;
    }
    r
}

/// What is drawn of a session. `typed` is what the romaji converter shows.
pub fn render(s: &Session, typed: &str) -> (r: Drawing)
    ensures
        r.text@ == s@.shown(typed@),
        r.replace == (s@.result is Some && !s@.result->0.append),
        r.busy == s@.busy,
        r.editing == (!s@.busy && s@.result is None),
{
    let shown = match &s.result {
        Some(result) => page_of(result.text.as_str(), s.page),
        None => if s.busy {
            tail_of(s.last_instruction.as_str())
        } else {
            tail_of(concat2(s.instruction.as_str(), typed).as_str())
        },
    };
    let replace = match &s.result {
        Some(result) => !result.append,
        None => false,
    };
    Drawing { text: shown, replace, busy: s.busy, editing: !s.busy && s.result.is_none() }
}

/// The text that an accepted result leaves in the document.
pub open spec fn accepted_text(target: Seq<char>, reply: ReplyModel) -> Seq<char> {
    if reply.append {
        target + reply.text
    } else {
        reply.text
    }
}

/// Ends a session whose result is accepted. Gives the text that takes the place of
/// the target; nothing where there is no target or no result.
pub fn commit(session: Session) -> (r: Option<String>)
    ensures
        r is Some == (session@.target is Some && session@.result is Some),
        r is Some ==> r->0@ == accepted_text(session@.target->0, session@.result->0),
{
    match session.target {
        None => None,
        Some(target) => match session.result {
            None => None,
            Some(reply) => if reply.append {
                Some(concat2(target.as_str(), reply.text.as_str()))
            } else {
                Some(reply.text)
            },
        },
    }
}

/// What a document says of a target that is to be replaced.
#[derive(Clone, Copy, Debug, PartialEq, Eq, Structural)]
pub struct TargetState {
    /// The document has the focus.
    pub focused: bool,
    /// The text is the one that was handed to the AI.
    pub text_unchanged: bool,
    pub read_only: bool,
    /// The text was being composed, and whether that composition is still the one
    /// in progress.
    pub composed: bool,
    pub same_composition: bool,
    /// How far the two ends of the selection have moved.
    pub start_offset: i32,
    pub end_offset: i32,
}

impl TargetState {
    /// The place is still the one that was read: the same composition, or the
    /// same selection.
    pub open spec fn same_place(self) -> bool {
        if self.composed {
            self.same_composition
        } else {
            self.start_offset == 0 && self.end_offset == 0
        }
    }

    pub open spec fn replaceable(self) -> bool {
        self.focused && self.text_unchanged && !self.read_only && self.same_place()
    }

    /// Whether the document may be written to: only where nothing has changed
    /// since the text was read.
    pub fn may_replace(&self) -> (r: bool)
        ensures
            r == self.replaceable(),
    {
        if !self.focused || !self.text_unchanged || self.read_only {
            return false;
        }
        if self.composed {
            self.same_composition
        } else {
            self.start_offset == 0 && self.end_offset == 0
        }
    }

    /// Whether a session goes on: its text is still where it was.
    pub fn is_unchanged(&self) -> (r: bool)
        ensures
            r == (self.text_unchanged && self.same_place()),
    {
        if !self.text_unchanged {
            return false;
        }
        if self.composed {
            self.same_composition
        } else {
            self.start_offset == 0 && self.end_offset == 0
        }
    }
}

/// Whether the place of the text is looked up again: not twice in a quarter second.
pub fn refresh_geometry_due(checked_ms: u64, now_ms: u64) -> (r: bool)
    ensures
        r == (now_ms - checked_ms >= 240),
{
    now_ms >= checked_ms && now_ms - checked_ms >= 240
}

// Laws

/// Enter never accepts a result once something was typed, nor while a request runs
/// without a result.
pub proof fn enter_accepts_only_a_seen_result(has_instruction: bool, has_result: bool, busy: bool)
    ensures
        intent_of_enter(has_instruction, has_result, busy) == EnterIntent::Accept <==> has_result
            && !has_instruction,
        intent_of_enter(has_instruction, has_result, busy) == EnterIntent::Wait ==> busy
            && !has_result,
{
}

/// Typing, deleting or a space drops the result and gives up the request that
/// runs, but keeps all that the next request is to go by.
pub proof fn corrections_keep_their_context(
    s: SessionView,
    vk: u16,
    action: Option<UserAction>,
    typed: Seq<char>,
    converted: Seq<char>,
)
    requires
        vk == VK_BACK || vk == VK_SPACE || (vk != VK_RETURN && vk != VK_TAB && vk != VK_PRIOR && vk
            != VK_NEXT && typed_by(action) is Some),
    ensures
        ({
            let after = s.after_key(vk, action, typed, converted);
            &&& after.result is None
            &&& !after.busy
            &&& after.cancel
            &&& after.page == 0
            &&& s.result is Some ==> after.previous == s.result->0.text
            &&& s.result is None ==> after.previous == s.previous
            &&& after.last_instruction == s.last_instruction
            &&& after.language == s.language
            &&& after.append == s.append
            &&& after.target == s.target
        }),
{
}

/// No key changes the text that is worked on.
pub proof fn the_target_never_changes(
    s: SessionView,
    vk: u16,
    action: Option<UserAction>,
    typed: Seq<char>,
    converted: Seq<char>,
)
    ensures
        s.after_key(vk, action, typed, converted).target == s.target,
{
}

/// The page in view is always one that the result has, while there is a text to
/// work on.
pub proof fn pages_stay_in_the_result(
    s: SessionView,
    vk: u16,
    action: Option<UserAction>,
    typed: Seq<char>,
    converted: Seq<char>,
)
    requires
        s.target is Some,
        0 <= s.page <= s.max_page(),
    ensures
        0 <= s.after_key(vk, action, typed, converted).page <= s.after_key(
            vk,
            action,
            typed,
            converted,
        ).max_page(),
{
}

/// A reply that failed leaves the session as it was, but for the message.
pub proof fn failed_requests_change_only_the_message(s: SessionView, e: Seq<char>)
    ensures
        s.replied(Err(e)) == (SessionView { busy: false, message: e, ..s }),
{
}

/// An accepted result keeps the text that it is appended to.
pub proof fn appended_results_keep_the_text(target: Seq<char>, reply: ReplyModel)
    requires
        reply.append,
    ensures
        target.is_prefix_of(accepted_text(target, reply)),
{
    assert(accepted_text(target, reply).subrange(0, target.len() as int) =~= target);
}

/// A document is written to only where nothing has changed since it was read.
pub proof fn changed_documents_are_left_alone(t: TargetState)
    ensures
        t.replaceable() ==> t.focused && t.text_unchanged && !t.read_only,
        t.replaceable() && !t.composed ==> t.start_offset == 0 && t.end_offset == 0,
        t.replaceable() && t.composed ==> t.same_composition,
{
}

/// Tab asks for another result and keeps all that the request goes by but the
/// result that is to be bettered: the instruction given last, the text, the
/// language and the way of writing stay, and so does what is being typed.
pub proof fn another_result_follows_the_same_instruction(
    s: SessionView,
    action: Option<UserAction>,
    typed: Seq<char>,
    converted: Seq<char>,
)
    requires
        s.target is Some,
    ensures
        ({
            let after = s.after_key(VK_TAB, action, typed, converted);
            let previous = if s.result is Some {
                s.result->0.text
            } else {
                s.previous
            };
            &&& !s.busy ==> {
                &&& after.last_instruction == s.last_instruction
                &&& after.instruction == s.instruction
                &&& after.language == s.language
                &&& after.append == s.append
                &&& after.target == s.target
                &&& after.previous == previous
                &&& after.result is None
                &&& after.busy && !after.cancel
                &&& after.page == 0
                &&& s.key_outcome(VK_TAB, action, typed) == (AiKeyModel::Generate {
                    request: request_text(
                        s.target->0,
                        s.last_instruction,
                        previous,
                        s.append,
                        s.language,
                    ),
                    romaji: RomajiOp::Keep,
                })
            }
            &&& s.busy ==> after == s && s.key_outcome(VK_TAB, action, typed) == (AiKeyModel::Draw {
                romaji: RomajiOp::Keep,
            })
        }),
{
}

/// Enter sends what was typed as the new instruction, all of it, for the same text,
/// language and way of writing, and to correct the same earlier result. With nothing
/// typed it asks once more with the instruction given last, unless there is a result
/// to accept or one to wait for.
pub proof fn enter_sends_the_whole_instruction(
    s: SessionView,
    action: Option<UserAction>,
    typed: Seq<char>,
    converted: Seq<char>,
)
    requires
        s.target is Some,
    ensures
        ({
            let after = s.after_key(VK_RETURN, action, typed, converted);
            let outcome = s.key_outcome(VK_RETURN, action, typed);
            let whole = s.instruction + typed;
            let asked = if whole.len() > 0 {
                whole
            } else {
                s.last_instruction
            };
            &&& whole.len() > 0 || !s.busy && s.result is None ==> {
                &&& after.last_instruction == asked
                &&& after.instruction.len() == 0
                &&& after.previous == s.previous
                &&& after.language == s.language
                &&& after.append == s.append
                &&& after.target == s.target
                &&& after.result is None
                &&& after.busy && !after.cancel
                &&& after.page == 0
                &&& outcome == (AiKeyModel::Generate {
                    request: request_text(s.target->0, asked, s.previous, s.append, s.language),
                    romaji: RomajiOp::Reset,
                })
            }
            &&& whole.len() == 0 && s.result is Some ==> after == s && outcome
                == AiKeyModel::Accept
            &&& whole.len() == 0 && s.result is None && s.busy ==> after == s && outcome == (
            AiKeyModel::Draw { romaji: RomajiOp::Keep })
        }),
{
}

/// Enter does one of three things: a result that nothing was typed against is
/// accepted, one that is on its way is waited for, and anything else is asked for.
pub proof fn enter_has_one_meaning(has_instruction: bool, has_result: bool, busy: bool)
    ensures
        intent_of_enter(has_instruction, has_result, busy) == EnterIntent::Generate
            <==> has_instruction || !has_result && !busy,
        intent_of_enter(has_instruction, has_result, busy) == EnterIntent::Wait
            <==> !has_instruction && !has_result && busy,
{
}

/// Backspace takes back one character of what is being typed: in the converter
/// while it shows anything, else at the end of the instruction. A space takes in
/// the converted text and empties the converter. A typed character goes to the
/// converter while there is room, and to nothing else.
pub proof fn corrections_edit_the_instruction(
    s: SessionView,
    c: char,
    typed: Seq<char>,
    converted: Seq<char>,
    vk: u16,
)
    requires
        vk != VK_RETURN && vk != VK_TAB && vk != VK_BACK && vk != VK_PRIOR && vk != VK_NEXT && vk
            != VK_SPACE && vk != VK_ESCAPE,
    ensures
        ({
            let key = Some(UserAction::Input(c));
            let raw = Some(UserAction::InputRaw(c));
            let back = s.after_key(VK_BACK, key, typed, converted);
            let space = s.after_key(VK_SPACE, key, typed, converted);
            let push = AiKeyModel::Draw { romaji: RomajiOp::Push { c } };
            let keep = AiKeyModel::Draw { romaji: RomajiOp::Keep };
            let room = utf8_len(s.instruction + typed) < 6000;
            &&& typed.len() > 0 ==> back.instruction == s.instruction && s.key_outcome(
                VK_BACK,
                key,
                typed,
            ) == (AiKeyModel::Draw { romaji: RomajiOp::Backspace })
            &&& typed.len() == 0 ==> s.key_outcome(VK_BACK, key, typed) == keep
            &&& typed.len() == 0 && s.instruction.len() > 0 ==> back.instruction
                == s.instruction.take(s.instruction.len() - 1)
            &&& typed.len() == 0 && s.instruction.len() == 0 ==> back.instruction.len() == 0
            &&& space.instruction == s.instruction + converted
            &&& s.key_outcome(VK_SPACE, key, typed) == (AiKeyModel::Draw { romaji: RomajiOp::Reset })
            &&& s.after_key(vk, key, typed, converted).instruction == s.instruction
            &&& s.after_key(vk, raw, typed, converted) == s.after_key(vk, key, typed, converted)
            &&& s.key_outcome(vk, key, typed) == (if room {
                push
            } else {
                keep
            })
            &&& s.key_outcome(vk, raw, typed) == s.key_outcome(vk, key, typed)
        }),
{
    utf8_lengths_add_up(s.instruction, typed);
    if s.instruction.len() > 0 {
        assert(s.instruction.drop_last() =~= s.instruction.take(s.instruction.len() - 1));
    }
}

/// A key that types nothing and has no meaning here changes nothing, and Escape
/// alone ends the session.
pub proof fn other_keys_do_nothing(
    s: SessionView,
    vk: u16,
    action: Option<UserAction>,
    typed: Seq<char>,
    converted: Seq<char>,
)
    ensures
        s.key_outcome(vk, action, typed) == AiKeyModel::Cancel <==> vk == VK_ESCAPE,
        vk != VK_RETURN && vk != VK_TAB && vk != VK_BACK && vk != VK_PRIOR && vk != VK_NEXT && vk
            != VK_SPACE && vk != VK_ESCAPE && !(action matches Some(UserAction::Input(_))) && !(
        action matches Some(UserAction::InputRaw(_))) ==> s.after_key(vk, action, typed, converted)
            == s && s.key_outcome(vk, action, typed) == (AiKeyModel::Draw {
            romaji: RomajiOp::Keep,
        }),
        s.key_outcome(vk, action, typed) == AiKeyModel::Accept ==> vk == VK_RETURN && s.result
            is Some,
{
}

/// The page keys turn the pages of a result one by one, stop at its two ends, and
/// change nothing else.
pub proof fn page_keys_turn_one_page(
    s: SessionView,
    action: Option<UserAction>,
    typed: Seq<char>,
    converted: Seq<char>,
)
    requires
        0 <= s.page <= s.max_page(),
    ensures
        ({
            let back = s.after_key(VK_PRIOR, action, typed, converted);
            let on = s.after_key(VK_NEXT, action, typed, converted);
            let keep = AiKeyModel::Draw { romaji: RomajiOp::Keep };
            &&& back == (SessionView { page: back.page, ..s })
            &&& on == (SessionView { page: on.page, ..s })
            &&& back.page == (if s.page > 0 {
                s.page - 1
            } else {
                0
            })
            &&& on.page == (if s.page < s.max_page() {
                s.page + 1
            } else {
                s.page
            })
            &&& s.key_outcome(VK_PRIOR, action, typed) == keep
            &&& s.key_outcome(VK_NEXT, action, typed) == keep
        }),
{
}

/// The last page holds the last rows, and no page but it is less than full.
pub proof fn the_last_page_holds_the_last_row(rows: int)
    requires
        rows > 0,
    ensures
        0 <= last_page(rows) * 5 < rows <= (last_page(rows) + 1) * 5,
{
}

/// A page shows its rows in order: row `i` of page `p` is row `5 * p + i` of all, and
/// every page is full but for the last.
pub proof fn pages_cut_the_rows_in_order(rows: Seq<Seq<char>>, p: int, i: int)
    requires
        rows.len() > 0,
        0 <= p <= last_page(rows.len() as int),
    ensures
        1 <= page_rows(rows, p).len() <= 5,
        p < last_page(rows.len() as int) ==> page_rows(rows, p).len() == 5,
        p == last_page(rows.len() as int) ==> 5 * p + page_rows(rows, p).len() == rows.len(),
        0 <= i < page_rows(rows, p).len() ==> page_rows(rows, p)[i] == rows[5 * p + i],
{
}

/// Joined rows are the rows with a line end between each two.
pub proof fn rows_are_joined_by_line_ends(rows: Seq<Seq<char>>, row: Seq<char>)
    ensures
        join_rows(Seq::empty()).len() == 0,
        join_rows(seq![row]) == row,
        rows.len() > 0 ==> join_rows(rows.push(row)) == join_rows(rows).push('\n') + row,
{
    assert(rows.push(row).drop_last() =~= rows);
}

/// What is shown is a page of the result while there is one, else the instruction
/// at work, else the one being typed.
pub proof fn the_result_is_shown_first(s: SessionView, typed: Seq<char>)
    ensures
        s.result is Some ==> s.shown(typed) == join_rows(
            page_rows(wrap::wrapped(s.result->0.text, 24), s.page),
        ),
        s.result is None && s.busy ==> s.shown(typed) == tail(s.last_instruction),
        s.result is None && !s.busy ==> s.shown(typed) == tail(s.instruction + typed),
        s.result is Some ==> s.max_page() == last_page(
            wrap::wrapped(s.result->0.text, 24).len() as int,
        ),
        s.result is None ==> s.max_page() == 0,
{
}

/// Of a long instruction its end is shown, as much as there is room for.
pub proof fn long_instructions_show_their_end(t: Seq<char>)
    ensures
        tail(t).is_suffix_of(t),
        t.len() <= 120 ==> tail(t) == t,
        t.len() > 120 ==> tail(t).len() == 120,
{
    assert(t.subrange(t.len() - tail(t).len(), t.len() as int) =~= tail(t));
}

/// A session starts with the whole text, no instruction and no earlier result, and
/// asks for a continuation in Japanese at once.
pub proof fn sessions_start_with_a_request(target: Seq<char>)
    ensures
        ({
            let s = new_session(target).started();
            &&& s.target == Some(target)
            &&& s.instruction.len() == 0
            &&& s.last_instruction.len() == 0
            &&& s.previous.len() == 0
            &&& s.result is None
            &&& s.busy && !s.cancel
            &&& s.append
            &&& s.page == 0
            &&& new_session(target).request() == request_text(
                target,
                Seq::empty(),
                Seq::empty(),
                true,
                "japanese"@,
            )
        }),
{
    assert(new_session(target).instruction =~= Seq::<char>::empty());
}

/// Starting a request changes nothing that it goes by.
pub proof fn requests_keep_what_they_go_by(s: SessionView)
    requires
        s.target is Some,
    ensures
        s.started().request() == s.request(),
        s.request() == request_text(
            s.target->0,
            s.last_instruction,
            s.previous,
            s.append,
            s.language,
        ),
        s.started().instruction == s.instruction,
        s.started().busy && !s.started().cancel,
        s.started().result is None,
        s.started().page == 0,
{
}

/// A reply becomes the result, and the next request goes by its language and its
/// way of writing. A reply that tells of an error is no result.
pub proof fn replies_become_results(s: SessionView, r: ReplyModel)
    ensures
        ({
            let after = s.replied(Ok(r));
            &&& !after.busy
            &&& r.error is None ==> {
                &&& after.result == Some(r)
                &&& after.append == r.append
                &&& after.language == r.language
            }
            &&& r.error is Some ==> {
                &&& after == s.replied(Err(r.error->0))
                &&& after.result == s.result
                &&& after.message == r.error->0
                &&& after.append == s.append
                &&& after.language == s.language
            }
            &&& after.target == s.target
            &&& after.instruction == s.instruction
            &&& after.last_instruction == s.last_instruction
            &&& after.previous == s.previous
            &&& after.cancel == s.cancel
            &&& after.page == s.page
        }),
{
}

/// A result that replaces the text is all that is left of it; one that is appended
/// stands behind it.
pub proof fn accepted_results_replace_or_follow(target: Seq<char>, reply: ReplyModel)
    ensures
        !reply.append ==> accepted_text(target, reply) == reply.text,
        reply.append ==> accepted_text(target, reply).take(target.len() as int) == target
            && accepted_text(target, reply).skip(target.len() as int) == reply.text,
{
    if reply.append {
        assert(accepted_text(target, reply).take(target.len() as int) =~= target);
        assert(accepted_text(target, reply).skip(target.len() as int) =~= reply.text);
    }
}

/// A document in which nothing has changed is written to.
pub proof fn unchanged_documents_are_written_to(t: TargetState)
    requires
        t.focused,
        t.text_unchanged,
        !t.read_only,
        t.composed ==> t.same_composition,
        !t.composed ==> t.start_offset == 0 && t.end_offset == 0,
    ensures
        t.replaceable(),
        t.same_place(),
{
}

/// The length in bytes of two texts in a row is the sum of theirs.
pub proof fn utf8_lengths_add_up(a: Seq<char>, b: Seq<char>)
    ensures
        utf8_len(a + b) == utf8_len(a) + utf8_len(b),
    decreases b.len(),
{
    if b.len() == 0 {
        assert(a + b =~= a);
    } else {
        utf8_lengths_add_up(a, b.drop_last());
        assert((a + b).drop_last() =~= a + b.drop_last());
    }
}

/// A character takes as many bytes as its code point needs: with `w` bytes there
/// are 7, 11, 16 or 21 bits.
pub proof fn characters_take_what_they_need(c: char)
    ensures
        1 <= utf8_width(c) <= 4,
        utf8_width(c) == 1 <==> (c as u32) < 128,
        utf8_width(c) <= 2 <==> (c as u32) < 2048,
        utf8_width(c) <= 3 <==> (c as u32) < 65536,
        utf8_len(seq![c]) == utf8_width(c),
{
    reveal_with_fuel(utf8_len, 2);
    assert(seq![c].drop_last() =~= Seq::empty());
}

/// The settings are looked at again only when more than half a second has passed,
/// and always then.
pub proof fn settings_are_looked_at_twice_a_second(cache: ConfigCache, later: u64)
    ensures
        later <= cache.checked_ms + 500 <==> !cache.look_due(later),
{
}

/// A request names its parts: the text, the instruction, the result to correct, the
/// language, and whether the result is appended.
pub proof fn requests_name_their_parts(
    target: Seq<char>,
    instruction: Seq<char>,
    previous: Seq<char>,
    append: bool,
    language: Seq<char>,
)
    ensures
        exists|texts: Seq<(Seq<char>, Seq<char>)>, flags: Seq<(Seq<char>, bool)>|
            {
                &&& request_text(target, instruction, previous, append, language)
                    == #[trigger] json_object_of(texts, flags)
                &&& texts.len() == 4
                &&& texts.contains(("text"@, target))
                &&& texts.contains(("instruction"@, instruction))
                &&& texts.contains(("previous"@, previous))
                &&& texts.contains(("language"@, language))
                &&& flags == seq![("append"@, append)]
            },
{
    let texts = seq![
        ("text"@, target),
        ("instruction"@, instruction),
        ("previous"@, previous),
        ("language"@, language),
    ];
    let flags = seq![("append"@, append)];
    assert(texts[0] == ("text"@, target));
    assert(texts[1] == ("instruction"@, instruction));
    assert(texts[2] == ("previous"@, previous));
    assert(texts[3] == ("language"@, language));
    assert(request_text(target, instruction, previous, append, language) == json_object_of(
        texts,
        flags,
    ));
}

/// White space alone, or no text at all, is blank; any other character is text.
pub proof fn blank_texts_hold_nothing_else(a: Seq<char>, b: Seq<char>, c: char)
    ensures
        blank(Seq::empty()),
        blank(a + b) <==> blank(a) && blank(b),
        blank(a.push(c)) <==> blank(a) && text::is_whitespace(c),
{
    let all = a + b;
    if blank(all) {
        assert forall|i: int| 0 <= i < a.len() implies text::is_whitespace(#[trigger] a[i]) by {
            assert(all[i] == a[i]);
        }
        assert forall|i: int| 0 <= i < b.len() implies text::is_whitespace(#[trigger] b[i]) by {
            assert(all[a.len() + i] == b[i]);
        }
    }
    if blank(a) && blank(b) {
        assert forall|i: int| 0 <= i < all.len() implies text::is_whitespace(
            #[trigger] all[i],
        ) by {
            if i < a.len() {
                assert(all[i] == a[i]);
            } else {
                assert(all[i] == b[i - a.len()]);
            }
        }
    }
    let longer = a.push(c);
    if blank(longer) {
        assert(longer[a.len() as int] == c);
        assert forall|i: int| 0 <= i < a.len() implies text::is_whitespace(#[trigger] a[i]) by {
            assert(longer[i] == a[i]);
        }
    }
    if blank(a) && text::is_whitespace(c) {
        assert forall|i: int| 0 <= i < longer.len() implies text::is_whitespace(
            #[trigger] longer[i],
        ) by {
            if i < a.len() {
                assert(longer[i] == a[i]);
            }
        }
    }
}

/// A result is shown with the time that it took.
pub proof fn results_tell_their_time(s: SessionView, r: ReplyModel)
    requires
        r.error is None,
    ensures
        text::decimal(r.elapsed_ms as nat).is_prefix_of(s.replied(Ok(r)).message),
{
    let d = text::decimal(r.elapsed_ms as nat);
    assert(done_message(r.elapsed_ms).subrange(0, d.len() as int) =~= d);
}

}
