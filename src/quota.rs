use vstd::prelude::*;

verus! {

/// Somewhere to send quota notices: a mail service, a text service, or a
/// recorder in tests.
pub trait Messenger {
    fn send(&self, msg: &str);
}

/// How much of its quota a value uses.
#[derive(Debug, PartialEq, Eq, Structural, Clone, Copy)]
pub enum QuotaLevel {
    /// Under three quarters.
    Normal,
    /// At least three quarters.
    Warning,
    /// At least nine tenths.
    Urgent,
    /// The whole quota or more.
    Over,
}

/// The share `value / max` compared exactly against 1, 9/10 and 3/4. With a
/// zero quota, any use is over it and no use is normal.
pub open spec fn level_of(value: int, max: int) -> QuotaLevel {
    if max == 0 {
        if value > 0 {
            QuotaLevel::Over
        } else {
            QuotaLevel::Normal
        }
    } else if value >= max {
        QuotaLevel::Over
    } else if 10 * value >= 9 * max {
        QuotaLevel::Urgent
    } else if 4 * value >= 3 * max {
        QuotaLevel::Warning
    } else {
        QuotaLevel::Normal
    }
}

/// The level of `value` against the quota `max`.
pub fn quota_level(value: usize, max: usize) -> (r: QuotaLevel)
    ensures
        r == level_of(value as int, max as int),
{
    let v = value as u128;
    let m = max as u128;
    if m == 0 {
        if v > 0 {
            QuotaLevel::Over
        } else {
            QuotaLevel::Normal
        }
    } else if v >= m {
        QuotaLevel::Over
    } else if 10 * v >= 9 * m {
        QuotaLevel::Urgent
    } else if 4 * v >= 3 * m {
        QuotaLevel::Warning
    } else {
        QuotaLevel::Normal
    }
}

/// The notice for a level, if it calls for one.
pub open spec fn quota_message_of(level: QuotaLevel) -> Option<&'static str> {
    match level {
        QuotaLevel::Over => Some("Error: You are over your quota!"),
        QuotaLevel::Urgent => Some("Urgent: You're at 90% of your quota!"),
        QuotaLevel::Warning => Some("Warning: You're at 75% of your quota!"),
        QuotaLevel::Normal => None,
    }
}

/// The notice for a level, if it calls for one.
pub fn quota_message(level: QuotaLevel) -> (r: Option<&'static str>)
    ensures
        r == quota_message_of(level),
        level == QuotaLevel::Normal <==> r is None,
        level == QuotaLevel::Over ==> (r matches Some(m) && m@
            == "Error: You are over your quota!"@),
        level == QuotaLevel::Urgent ==> (r matches Some(m) && m@
            == "Urgent: You're at 90% of your quota!"@),
        level == QuotaLevel::Warning ==> (r matches Some(m) && m@
            == "Warning: You're at 75% of your quota!"@),
{
    match level {
        QuotaLevel::Over => Some("Error: You are over your quota!"),
        QuotaLevel::Urgent => Some("Urgent: You're at 90% of your quota!"),
        QuotaLevel::Warning => Some("Warning: You're at 75% of your quota!"),
        QuotaLevel::Normal => None,
    }
}

/// Tracks a value against a quota and notifies a messenger as the value
/// nears or passes it.
pub struct LimitTracker<'a, T: Messenger> {
    messenger: &'a T,
    value: usize,
    max: usize,
}

impl<'a, T: Messenger> LimitTracker<'a, T> {
    /// The tracked value.
    pub closed spec fn value(&self) -> usize {
        self.value
    }

    /// The quota.
    pub closed spec fn max(&self) -> usize {
        self.max
    }

    /// The messenger notices go to.
    pub closed spec fn messenger(&self) -> &'a T {
        self.messenger
    }

    /// A tracker at zero against the quota `max`.
    pub fn new(messenger: &'a T, max: usize) -> (r: LimitTracker<'a, T>)
        ensures
            r.value() == 0,
            r.max() == max,
            r.messenger() == messenger,
    {
        LimitTracker { messenger, value: 0, max }
    }

    /// Records `value`, sends the messenger the notice for the new level, if
    /// the level calls for one, and returns the notice sent.
    pub fn set_value(&mut self, value: usize) -> (sent: Option<&'static str>)
        ensures
            final(self).value() == value,
            final(self).max() == old(self).max(),
            final(self).messenger() == old(self).messenger(),
            level_of(value as int, old(self).max() as int) == QuotaLevel::Normal <==> sent is None,
            sent == quota_message_of(level_of(value as int, old(self).max() as int)),
    {
        self.value = value;
        let notice = quota_message(quota_level(self.value, self.max));
        match notice {
            Some(msg) => self.messenger.send(msg),
            None => {},
        }
        notice
    }
}

} // verus!
