//! The texts of the system notifications.
use vstd::prelude::*;
use crate::text::{decimal, owned, push_decimal, push_str};

verus! {

/// A system notification: its title and body.
pub struct Notification {
    pub title: String,
    pub body: String,
}

/// The notification that a provider's query failed.
pub fn notify_error(provider_name: &str, error: &str) -> (n: Notification)
    ensures
        n.title@ == "Pulse — "@ + provider_name@ + " 查询失败"@,
        n.body@ == error@,
{
    let mut title = owned("Pulse — ");
    push_str(&mut title, provider_name);
    push_str(&mut title, " 查询失败");
    Notification { title, body: owned(error) }
}

/// The notification that a refresh of `count` providers has completed.
pub fn notify_refresh_complete(count: usize) -> (n: Notification)
    ensures
        n.title@ == "Pulse — 刷新完成"@,
        n.body@ == "已更新 "@ + decimal(count as nat) + " 个供应商的余额信息"@,
{
    let mut body = owned("已更新 ");
    push_decimal(&mut body, count as u64);
    push_str(&mut body, " 个供应商的余额信息");
    Notification { title: owned("Pulse — 刷新完成"), body }
}

} // verus!
