//! The structured query/mutation transport: typed results for the hover,
//! click and screenshot mutations and for the component-count query.
use vstd::prelude::*;

use crate::request::Outcome;
use crate::scene::{count_entries, ObjectCounts};

verus! {

/// Result of a mutation.
#[derive(Clone, Debug)]
pub struct CommandResult {
    pub success: bool,
    pub message: String,
}

/// One tracked object kind and how many live objects it has.
#[derive(Clone, Debug)]
pub struct ComponentCount {
    pub name: String,
    pub count: i32,
}

/// The mutations: hover, click, screenshot.
#[derive(Clone, Copy, Debug, Default)]
pub struct MutationRoot;

/// The queries: health, component counts.
#[derive(Clone, Copy, Debug, Default)]
pub struct QueryRoot;

/// A count as the query reports it: the count itself, or `i32::MAX` where it
/// does not fit.
pub open spec fn reported_count(n: usize) -> i32 {
    if n <= i32::MAX {
        n as i32
    } else {
        i32::MAX
    }
}

/// A mutation's result for a wait that ended with `o`, or its error message.
pub open spec fn mutation_result(action_name: Seq<char>, o: Outcome<bool>) -> Result<
    (bool, Seq<char>),
    Seq<char>,
> {
    match o {
        Outcome::Replied(true) => Ok((true, action_name + "完成"@)),
        Outcome::Replied(false) => Ok((false, action_name + "失败"@)),
        Outcome::Dropped => Err(action_name + ": 接收确认失败"@),
        Outcome::TimedOut => Err(action_name + ": 超时"@),
    }
}

/// Whether `r` is the result that `spec` describes.
pub open spec fn result_matches(
    r: Result<CommandResult, String>,
    spec: Result<(bool, Seq<char>), Seq<char>>,
) -> bool {
    match spec {
        Ok((b, m)) => r is Ok && r->Ok_0.success == b && r->Ok_0.message@ == m,
        Err(m) => r is Err && r->Err_0@ == m,
    }
}

/// A mutation's result once its wait ended with `o`.
pub fn wait_bool(o: Outcome<bool>, action_name: &str) -> (r: Result<CommandResult, String>)
    ensures
        result_matches(r, mutation_result(action_name@, o)),
{
    match o {
        Outcome::Replied(b) => {
            let message = if b {
                String::from_str(action_name).concat("完成")
            } else {
                String::from_str(action_name).concat("失败")
            };
            Ok(CommandResult { success: b, message })
        },
        Outcome::Dropped => Err(String::from_str(action_name).concat(": 接收确认失败")),
        Outcome::TimedOut => Err(String::from_str(action_name).concat(": 超时")),
    }
}

/// The error of a mutation or query whose command could not be queued;
/// `reason` is the channel's description of the failure.
pub fn send_failed_error(query: bool, reason: &str) -> (r: String)
    ensures
        r@ == if query {
            "发送查询失败: "@
        } else {
            "发送消息失败: "@
        } + reason@,
{
    if query {
        String::from_str("发送查询失败: ").concat(reason)
    } else {
        String::from_str("发送消息失败: ").concat(reason)
    }
}

impl MutationRoot {
    /// Result of `hover` once its wait ended with `o`.
    pub fn hover(&self, o: Outcome<bool>) -> (r: Result<CommandResult, String>)
        ensures
            result_matches(r, mutation_result("悬停"@, o)),
    {
        wait_bool(o, "悬停")
    }

    /// Result of `click` once its wait ended with `o`.
    pub fn click(&self, o: Outcome<bool>) -> (r: Result<CommandResult, String>)
        ensures
            result_matches(r, mutation_result("点击"@, o)),
    {
        wait_bool(o, "点击")
    }

    /// Result of `screenshot(path)` once its wait ended with `o`.
    pub fn screenshot(&self, path: &String, o: Outcome<bool>) -> (r: Result<CommandResult, String>)
        ensures
            result_matches(
                r,
                match o {
                    Outcome::Replied(true) => Ok((true, "截图完成: "@ + path@)),
                    Outcome::Replied(false) => Ok((false, "截图失败: "@ + path@)),
                    Outcome::Dropped => Err("接收确认失败"@),
                    Outcome::TimedOut => Err("截图超时"@),
                },
            ),
    {
        match o {
            Outcome::Replied(b) => {
                let message = if b {
                    String::from_str("截图完成: ").concat(path.as_str())
                } else {
                    String::from_str("截图失败: ").concat(path.as_str())
                };
                Ok(CommandResult { success: b, message })
            },
            Outcome::Dropped => Err(String::from_str("接收确认失败")),
            Outcome::TimedOut => Err(String::from_str("截图超时")),
        }
    }
}

/// A count as the query reports it.
pub fn report_count(n: usize) -> (r: i32)
    ensures
        r == reported_count(n),
        r >= 0,
{
    if n <= i32::MAX as usize {
        n as i32
    } else {
        i32::MAX
    }
}

impl QueryRoot {
    /// Liveness check.
    pub fn health(&self) -> (r: &'static str)
        ensures
            r@ == "OK"@,
    {
        "OK"
    }

    /// Result of `componentCounts` once its wait ended with `o`: each tracked
    /// kind with its count, sorted by name.
    pub fn component_counts(&self, o: Outcome<ObjectCounts>) -> (r: Result<
        Vec<ComponentCount>,
        String,
    >)
        ensures
            match o {
                Outcome::Replied(c) => r is Ok && r->Ok_0@.len() == count_entries(c).len()
                    && forall|i: int|
                    0 <= i < count_entries(c).len() ==> {
                        &&& (#[trigger] r->Ok_0@[i]).name@ == count_entries(c)[i].0
                        &&& r->Ok_0@[i].count == reported_count(count_entries(c)[i].1)
                    },
                Outcome::Dropped => r is Err && r->Err_0@ == "接收响应失败"@,
                Outcome::TimedOut => r is Err && r->Err_0@ == "查询超时"@,
            },
    {
        match o {
            Outcome::Replied(c) => {
                let entries = c.entries();
                let mut out: Vec<ComponentCount> = Vec::new();
                let mut k: usize = 0;
                while k < entries.len()
                    invariant
                        k <= entries@.len(),
                        entries@.map_values(|e: (String, usize)| (e.0@, e.1)) == count_entries(c),
                        out@.len() == k,
                        forall|i: int|
                            0 <= i < k ==> {
                                &&& (#[trigger] out@[i]).name@ == count_entries(c)[i].0
                                &&& out@[i].count == reported_count(count_entries(c)[i].1)
                            },
                    decreases entries@.len() - k,
                {
                    let name = entries[k].0.clone();
                    let count = report_count(entries[k].1);
                    out.push(ComponentCount { name, count });
                    k = k + 1;
                }
                Ok(out)
            },
            Outcome::Dropped => Err(String::from_str("接收响应失败")),
            Outcome::TimedOut => Err(String::from_str("查询超时")),
        }
    }
}

} // verus!
