//! The streaming transport's request handling: a request envelope is checked
//! and turned into a command, and the awaited reply is turned into a response.
use vstd::prelude::*;

use crate::command::{Command, Coord};
use crate::scene::ObjectCounts;

verus! {

/// A parameter value, as far as the bridge reads it.
#[derive(Clone, Debug)]
pub enum ParamValue {
    Number(Coord),
    Text(String),
    Other,
}

/// The `params` object of a request: its fields in order, keys as the JSON
/// object has them (a lookup takes the first field with the key). A payload
/// that is not an object has no fields.
#[derive(Clone, Debug)]
pub struct Params {
    pub entries: Vec<(String, ParamValue)>,
}

/// A request envelope: `{action, selector?, params?}`.
#[derive(Clone, Debug)]
pub struct TestCommand {
    pub action: String,
    pub selector: Option<String>,
    pub params: Option<Params>,
}

/// A response envelope: `{success, message, data?}`.
#[derive(Clone, Debug)]
pub struct TestResponse {
    pub success: bool,
    pub message: String,
    pub data: Option<ObjectCounts>,
}

/// How the wait on a reply slot ended.
#[derive(Debug)]
pub enum Outcome<T> {
    /// The frame loop answered with this value.
    Replied(T),
    /// The writer went away without answering.
    Dropped,
    /// No answer came within the time budget.
    TimedOut,
}

/// First field of `entries` under `key`.
pub open spec fn lookup(entries: Seq<(String, ParamValue)>, key: Seq<char>) -> Option<ParamValue>
    decreases entries.len(),
{
    if entries.len() == 0 {
        None
    } else if entries[0].0@ == key {
        Some(entries[0].1)
    } else {
        lookup(entries.drop_first(), key)
    }
}

/// The number under `key`, if that field holds a number.
pub open spec fn number_field(p: Params, key: Seq<char>) -> Option<Coord> {
    match lookup(p.entries@, key) {
        Some(ParamValue::Number(c)) => Some(c),
        _ => None,
    }
}

/// The text under `key`, if that field holds a string.
pub open spec fn text_field(p: Params, key: Seq<char>) -> Option<String> {
    match lookup(p.entries@, key) {
        Some(ParamValue::Text(s)) => Some(s),
        _ => None,
    }
}

/// The `(x, y)` pair of a coordinate request, or the message that rejects it.
pub open spec fn plan_coords(params: Option<Params>) -> Result<(Coord, Coord), Seq<char>> {
    match params {
        None => Err("缺少参数"@),
        Some(p) => match (number_field(p, "x"@), number_field(p, "y"@)) {
            (Some(x), Some(y)) => Ok((x, y)),
            _ => Err("缺少 x, y 坐标"@),
        },
    }
}

/// The command a request asks for, or the message that rejects it.
pub open spec fn planned(cmd: TestCommand) -> Result<Command, Seq<char>> {
    if cmd.action@ == "hover"@ {
        match plan_coords(cmd.params) {
            Ok((x, y)) => Ok(Command::Hover { x, y }),
            Err(m) => Err(m),
        }
    } else if cmd.action@ == "click"@ {
        match plan_coords(cmd.params) {
            Ok((x, y)) => Ok(Command::Click { x, y }),
            Err(m) => Err(m),
        }
    } else if cmd.action@ == "screenshot"@ {
        match cmd.params {
            None => Err("缺少参数"@),
            Some(p) => match text_field(p, "path"@) {
                Some(path) => Ok(Command::Screenshot { path }),
                None => Err("缺少 path 参数"@),
            },
        }
    } else if cmd.action@ == "query_components"@ {
        Ok(Command::QueryComponents)
    } else {
        Err("未知命令: "@ + cmd.action@)
    }
}

/// A failure response with no data.
pub open spec fn is_failure(r: TestResponse, message: Seq<char>) -> bool {
    &&& !r.success
    &&& r.message@ == message
    &&& r.data is None
}

impl Params {
    /// The first field under `key`.
    pub fn get(&self, key: &String) -> (r: Option<&ParamValue>)
        ensures
            match r {
                Some(v) => lookup(self.entries@, key@) == Some(*v),
                None => lookup(self.entries@, key@) is None,
            },
    {
        let mut k: usize = 0;
        assert(self.entries@.skip(0) =~= self.entries@);
        while k < self.entries.len()
            invariant
                k <= self.entries@.len(),
                lookup(self.entries@, key@) == lookup(self.entries@.skip(k as int), key@),
            decreases self.entries@.len() - k,
        {
            assert(self.entries@.skip(k as int).drop_first() =~= self.entries@.skip(k as int + 1));
            if self.entries[k].0 == *key {
                return Some(&self.entries[k].1);
            }
            k = k + 1;
        }
        None
    }

    /// The number under `key`, if that field holds a number.
    pub fn number(&self, key: &String) -> (r: Option<Coord>)
        ensures
            r == number_field(*self, key@),
    {
        match self.get(key) {
            Some(ParamValue::Number(c)) => Some(*c),
            _ => None,
        }
    }

    /// The text under `key`, if that field holds a string.
    pub fn text(&self, key: &String) -> (r: Option<String>)
        ensures
            r == text_field(*self, key@),
    {
        match self.get(key) {
            Some(ParamValue::Text(s)) => Some(s.clone()),
            _ => None,
        }
    }
}

/// A failure response carrying `message`.
pub fn error_response(message: &str) -> (r: TestResponse)
    ensures
        is_failure(r, message@),
{
    TestResponse { success: false, message: String::from_str(message), data: None }
}

/// The `(x, y)` pair of a coordinate request, or the failure that rejects it.
fn coordinates(params: &Option<Params>) -> (r: Result<(Coord, Coord), TestResponse>)
    ensures
        match plan_coords(*params) {
            Ok(xy) => r == Ok::<(Coord, Coord), TestResponse>(xy),
            Err(m) => r is Err && is_failure(r->Err_0, m),
        },
{
    match params {
        None => Err(error_response("缺少参数")),
        Some(p) => {
            let x = p.number(&String::from_str("x"));
            let y = p.number(&String::from_str("y"));
            match (x, y) {
                (Some(x), Some(y)) => Ok((x, y)),
                _ => Err(error_response("缺少 x, y 坐标")),
            }
        },
    }
}

/// Checks a request and builds the command it asks for. Unknown actions and
/// missing or ill-typed parameters give a failure response, and no command.
pub fn plan_command(cmd: &TestCommand) -> (r: Result<Command, TestResponse>)
    ensures
        match planned(*cmd) {
            Ok(c) => r is Ok && r->Ok_0 == c,
            Err(m) => r is Err && is_failure(r->Err_0, m),
        },
{
    if cmd.action == String::from_str("hover") {
        match coordinates(&cmd.params) {
            Ok((x, y)) => Ok(Command::Hover { x, y }),
            Err(e) => Err(e),
        }
    } else if cmd.action == String::from_str("click") {
        match coordinates(&cmd.params) {
            Ok((x, y)) => Ok(Command::Click { x, y }),
            Err(e) => Err(e),
        }
    } else if cmd.action == String::from_str("screenshot") {
        match &cmd.params {
            None => Err(error_response("缺少参数")),
            Some(p) => match p.text(&String::from_str("path")) {
                Some(path) => Ok(Command::Screenshot { path }),
                None => Err(error_response("缺少 path 参数")),
            },
        }
    } else if cmd.action == String::from_str("query_components") {
        Ok(Command::QueryComponents)
    } else {
        let message = String::from_str("未知命令: ").concat(cmd.action.as_str());
        Err(TestResponse { success: false, message, data: None })
    }
}

/// Any action other than `hover`, `click`, `screenshot` and `query_components`
/// is rejected, and a rejected request, for whatever reason, is answered with
/// a non-empty message: no command is built for it.
pub proof fn lemma_rejected_requests_carry_a_message(cmd: TestCommand)
    ensures
        !(cmd.action@ == "hover"@ || cmd.action@ == "click"@ || cmd.action@ == "screenshot"@
            || cmd.action@ == "query_components"@) ==> planned(cmd) is Err,
        planned(cmd) is Err ==> planned(cmd)->Err_0.len() > 0,
{
    reveal_strlit("缺少参数");
    reveal_strlit("缺少 x, y 坐标");
    reveal_strlit("缺少 path 参数");
    reveal_strlit("未知命令: ");
}

/// The response to a frame that is not a request envelope at all.
pub fn malformed_request_response() -> (r: TestResponse)
    ensures
        is_failure(r, "无法解析请求"@),
        r.message@.len() > 0,
{
    proof {
        reveal_strlit("无法解析请求");
    }
    error_response("无法解析请求")
}

/// Seconds a handler waits for the reply to a hover, click or query.
pub const COMMAND_TIMEOUT_SECS: u64 = 2;

/// Seconds a handler waits for the reply to a screenshot, which depends on
/// rendering and on the file being written.
pub const SCREENSHOT_TIMEOUT_SECS: u64 = 5;

/// Seconds a handler waits for the reply to `cmd`.
pub fn reply_timeout_secs(cmd: &Command) -> (r: u64)
    ensures
        r == if cmd is Screenshot {
            SCREENSHOT_TIMEOUT_SECS
        } else {
            COMMAND_TIMEOUT_SECS
        },
{
    match cmd {
        Command::Screenshot { .. } => SCREENSHOT_TIMEOUT_SECS,
        _ => COMMAND_TIMEOUT_SECS,
    }
}

/// The name a response uses for a hover or click.
pub open spec fn action_name(c: Command) -> Seq<char> {
    match c {
        Command::Hover { .. } => "悬停"@,
        _ => "点击"@,
    }
}

/// The awaited flag, or the reason there is none.
pub open spec fn flag_reply(o: Outcome<bool>) -> Result<bool, Seq<char>> {
    match o {
        Outcome::Replied(b) => Ok(b),
        Outcome::Dropped => Err("接收确认失败"@),
        Outcome::TimedOut => Err("超时"@),
    }
}

/// The response to a hover, click or screenshot whose wait ended with `o`.
pub open spec fn flag_response(c: Command, o: Outcome<bool>) -> (bool, Seq<char>) {
    match c {
        Command::Screenshot { path } => match flag_reply(o) {
            Ok(true) => (true, "截图完成: "@ + path@),
            Ok(false) => (false, "截图失败: "@ + path@),
            Err(m) => (false, m),
        },
        _ => match flag_reply(o) {
            Ok(true) => (true, action_name(c) + "完成"@),
            Ok(false) => (false, action_name(c) + "失败"@),
            Err(m) => (false, action_name(c) + ": "@ + m),
        },
    }
}

/// The awaited flag, or the reason there is none.
pub fn wait_for_bool_response(o: Outcome<bool>) -> (r: Result<bool, String>)
    ensures
        match flag_reply(o) {
            Ok(b) => r == Ok::<bool, String>(b),
            Err(m) => r is Err && r->Err_0@ == m,
        },
{
    match o {
        Outcome::Replied(b) => Ok(b),
        Outcome::Dropped => Err(String::from_str("接收确认失败")),
        Outcome::TimedOut => Err(String::from_str("超时")),
    }
}

/// The response to a hover or click named `action_name` whose wait ended with `o`.
pub fn wait_for_response(o: Outcome<bool>, action_name: &str) -> (r: TestResponse)
    ensures
        r.data is None,
        match flag_reply(o) {
            Ok(true) => r.success && r.message@ == action_name@ + "完成"@,
            Ok(false) => is_failure(r, action_name@ + "失败"@),
            Err(m) => is_failure(r, action_name@ + ": "@ + m),
        },
{
    match wait_for_bool_response(o) {
        Ok(true) => TestResponse {
            success: true,
            message: String::from_str(action_name).concat("完成"),
            data: None,
        },
        Ok(false) => TestResponse {
            success: false,
            message: String::from_str(action_name).concat("失败"),
            data: None,
        },
        Err(m) => TestResponse {
            success: false,
            message: String::from_str(action_name).concat(": ").concat(m.as_str()),
            data: None,
        },
    }
}

/// The response to a screenshot of `path` whose wait ended with `o`.
pub fn screenshot_response(path: &String, o: Outcome<bool>) -> (r: TestResponse)
    ensures
        r.data is None,
        (r.success, r.message@) == flag_response(Command::Screenshot { path: *path }, o),
{
    match wait_for_bool_response(o) {
        Ok(true) => TestResponse {
            success: true,
            message: String::from_str("截图完成: ").concat(path.as_str()),
            data: None,
        },
        Ok(false) => TestResponse {
            success: false,
            message: String::from_str("截图失败: ").concat(path.as_str()),
            data: None,
        },
        Err(m) => TestResponse { success: false, message: m, data: None },
    }
}

/// The response to a hover, click or screenshot whose wait ended with `o`.
pub fn flag_command_response(cmd: &Command, o: Outcome<bool>) -> (r: TestResponse)
    requires
        !(cmd is QueryComponents),
    ensures
        r.data is None,
        (r.success, r.message@) == flag_response(*cmd, o),
{
    match cmd {
        Command::Hover { .. } => wait_for_response(o, "悬停"),
        Command::Click { .. } => wait_for_response(o, "点击"),
        Command::Screenshot { path } => screenshot_response(path, o),
        Command::QueryComponents => error_response("接收确认失败"),
    }
}

/// The response to a component query whose wait ended with `o`.
pub fn query_response(o: Outcome<ObjectCounts>) -> (r: TestResponse)
    ensures
        match o {
            Outcome::Replied(c) => r.success && r.message@ == "组件查询完成"@ && r.data
                == Some(c),
            Outcome::Dropped => is_failure(r, "接收响应失败"@),
            Outcome::TimedOut => is_failure(r, "查询超时"@),
        },
{
    match o {
        Outcome::Replied(c) => TestResponse {
            success: true,
            message: String::from_str("组件查询完成"),
            data: Some(c),
        },
        Outcome::Dropped => error_response("接收响应失败"),
        Outcome::TimedOut => error_response("查询超时"),
    }
}

/// The response when `cmd` could not be queued; `reason` is the channel's
/// description of the failure.
pub fn send_failed_response(cmd: &Command, reason: &str) -> (r: TestResponse)
    ensures
        is_failure(
            r,
            if cmd is QueryComponents {
                "发送查询失败: "@
            } else {
                "发送消息失败: "@
            } + reason@,
        ),
{
    let prefix = match cmd {
        Command::QueryComponents => String::from_str("发送查询失败: "),
        _ => String::from_str("发送消息失败: "),
    };
    TestResponse { success: false, message: prefix.concat(reason), data: None }
}

} // verus!
