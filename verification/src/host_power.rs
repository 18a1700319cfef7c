//! The host's battery level, worked out from what the system reports about
//! its power supplies.
//!
//! Reading the reports is left to the caller. Each supply arrives as the text
//! that was found for it, and the functions here decide which supply is a
//! battery and what level its text gives.

use vstd::prelude::*;
use vstd::string::*;

use crate::tracker::BATTERY_FULL;
use crate::ui::AppCmd;

verus! {

/// What the system reports about one power supply. A field is `None` where
/// the report could not be read.
#[derive(Debug)]
pub struct PowerSupply {
    /// The name of the supply, such as `BAT0`.
    pub name: Option<String>,
    /// The kind of the supply, such as `Battery` or `Mains`.
    pub kind: Option<String>,
    /// The charge in percent, as text.
    pub capacity: Option<String>,
}

/// A power supply as a mathematical value.
pub struct PowerSupplyModel {
    pub name: Option<Seq<char>>,
    pub kind: Option<Seq<char>>,
    pub capacity: Option<Seq<char>>,
}

/// The text of an optional string.
pub open spec fn text_of(s: Option<String>) -> Option<Seq<char>> {
    match s {
        Some(s) => Some(s@),
        None => None,
    }
}

impl View for PowerSupply {
    type V = PowerSupplyModel;

    open spec fn view(&self) -> PowerSupplyModel {
        PowerSupplyModel {
            name: text_of(self.name),
            kind: text_of(self.kind),
            capacity: text_of(self.capacity),
        }
    }
}

/// The characters that count as white space: those with the Unicode property
/// `White_Space`.
pub open spec fn is_whitespace(c: char) -> bool {
    let code = c as u32;
    ||| 0x09 <= code <= 0x0D
    ||| code == 0x20
    ||| code == 0x85
    ||| code == 0xA0
    ||| code == 0x1680
    ||| 0x2000 <= code <= 0x200A
    ||| code == 0x2028
    ||| code == 0x2029
    ||| code == 0x202F
    ||| code == 0x205F
    ||| code == 0x3000
}

/// `s` without the white space at its start.
pub open spec fn trim_start(s: Seq<char>) -> Seq<char>
    decreases s.len(),
{
    if s.len() > 0 && is_whitespace(s.first()) {
        trim_start(s.drop_first())
    } else {
        s
    }
}

/// `s` without the white space at its end.
pub open spec fn trim_end(s: Seq<char>) -> Seq<char>
    decreases s.len(),
{
    if s.len() > 0 && is_whitespace(s.last()) {
        trim_end(s.drop_last())
    } else {
        s
    }
}

/// `s` without the white space at its start and at its end.
pub open spec fn trim(s: Seq<char>) -> Seq<char> {
    trim_end(trim_start(s))
}

/// Whether a character is one of the ten decimal digits.
pub open spec fn is_digit(c: char) -> bool {
    '0' <= c <= '9'
}

/// Whether a text holds decimal digits only.
pub open spec fn all_digits(s: Seq<char>) -> bool {
    forall|i: int| 0 <= i < s.len() ==> is_digit(#[trigger] s[i])
}

/// A text without the plus sign that it may begin with.
pub open spec fn without_plus(s: Seq<char>) -> Seq<char> {
    if s.len() > 0 && s.first() == '+' {
        s.drop_first()
    } else {
        s
    }
}

/// The number that a run of decimal digits writes.
pub open spec fn digits_value(s: Seq<char>) -> nat
    decreases s.len(),
{
    if s.len() == 0 {
        0
    } else {
        digits_value(s.drop_last()) * 10 + (s.last() as u32 - '0' as u32) as nat
    }
}

/// The byte that a text writes in decimal: one or more digits, after at most
/// one plus sign, that give a number up to 255. Any other text gives none.
pub open spec fn parse_u8(s: Seq<char>) -> Option<u8> {
    let digits = without_plus(s);
    if digits.len() > 0 && all_digits(digits) && digits_value(digits) <= u8::MAX {
        Some(digits_value(digits) as u8)
    } else {
        None
    }
}

/// The kind that marks a supply as a battery.
pub open spec fn battery_kind() -> Seq<char> {
    seq!['B', 'a', 't', 't', 'e', 'r', 'y']
}

/// The start of the name of a battery.
pub open spec fn battery_prefix() -> Seq<char> {
    seq!['B', 'A', 'T']
}

/// A level limited to a percentage.
pub open spec fn percent(level: int) -> u8 {
    if level < 0 {
        0
    } else if level > BATTERY_FULL {
        BATTERY_FULL
    } else {
        level as u8
    }
}

impl PowerSupplyModel {
    /// Whether the supply is a battery. Its kind decides where it is known;
    /// where it is not, its name does.
    pub open spec fn is_battery(self) -> bool {
        match self.kind {
            Some(kind) => trim(kind) == battery_kind(),
            None => match self.name {
                Some(name) => battery_prefix().is_prefix_of(name),
                None => false,
            },
        }
    }

    /// The level that the supply gives: that of a battery whose capacity is a
    /// number, limited to 100.
    pub open spec fn level(self) -> Option<u8> {
        if self.is_battery() {
            match self.capacity {
                Some(text) => match parse_u8(trim(text)) {
                    Some(value) => Some(percent(value as int)),
                    None => None,
                },
                None => None,
            }
        } else {
            None
        }
    }
}

/// The level of the first supply that gives one.
pub open spec fn battery_percent(supplies: Seq<PowerSupplyModel>) -> Option<u8>
    decreases supplies.len(),
{
    if supplies.len() == 0 {
        None
    } else {
        match supplies.first().level() {
            Some(level) => Some(level),
            None => battery_percent(supplies.drop_first()),
        }
    }
}

/// The models of a list of supplies.
pub open spec fn models(supplies: Seq<PowerSupply>) -> Seq<PowerSupplyModel> {
    Seq::new(supplies.len(), |i: int| supplies[i]@)
}

/// A number with one more digit is at least ten times the number without it.
proof fn lemma_digits_value_grows(s: Seq<char>, n: int)
    requires
        0 <= n <= s.len(),
        all_digits(s),
    ensures
        digits_value(s.take(n)) <= digits_value(s),
    decreases s.len() - n,
{
    if n < s.len() {
        lemma_digits_value_grows(s, n + 1);
        assert(s.take(n + 1).drop_last() =~= s.take(n));
        assert(s.take(n + 1).last() == s[n]);
    } else {
        assert(s.take(n) =~= s);
    }
}

fn char_is_whitespace(c: char) -> (r: bool)
    ensures
        r == is_whitespace(c),
{
    let code = c as u32;
    (0x09 <= code && code <= 0x0D) || code == 0x20 || code == 0x85 || code == 0xA0 || code
        == 0x1680 || (0x2000 <= code && code <= 0x200A) || code == 0x2028 || code == 0x2029
        || code == 0x202F || code == 0x205F || code == 0x3000
}

/// The characters of a text.
fn chars_of(s: &str) -> (chars: Vec<char>)
    ensures
        chars@ == s@,
{
    let mut chars: Vec<char> = Vec::new();
    for c in it: s.chars()
        invariant
            it.seq() == s@,
            chars@ == s@.take(it.index() as int),
    {
        chars.push(c);
        assert(chars@ =~= s@.take(it.index() + 1));
    }
    assert(s@.take(s@.len() as int) =~= s@);
    chars
}

/// Taking white space off the start of a text leaves what follows the run of
/// white space.
proof fn lemma_trim_start_skips(s: Seq<char>, n: int)
    requires
        0 <= n <= s.len(),
        forall|i: int| 0 <= i < n ==> is_whitespace(#[trigger] s[i]),
    ensures
        trim_start(s) == trim_start(s.skip(n)),
    decreases n,
{
    if n > 0 {
        lemma_trim_start_skips(s, n - 1);
        let rest = s.skip(n - 1);
        assert(rest.first() == s[n - 1]);
        assert(rest.drop_first() =~= s.skip(n));
    } else {
        assert(s.skip(0) =~= s);
    }
}

/// Taking white space off the end of a text leaves what precedes the run of
/// white space.
proof fn lemma_trim_end_takes(s: Seq<char>, n: int)
    requires
        0 <= n <= s.len(),
        forall|i: int| n <= i < s.len() ==> is_whitespace(#[trigger] s[i]),
    ensures
        trim_end(s) == trim_end(s.take(n)),
    decreases s.len() - n,
{
    if n < s.len() {
        lemma_trim_end_takes(s, n + 1);
        let rest = s.take(n + 1);
        assert(rest.last() == s[n]);
        assert(rest.drop_last() =~= s.take(n));
    } else {
        assert(s.take(n) =~= s);
    }
}

/// The characters of a text without the white space around it.
fn trimmed(chars: &Vec<char>) -> (inner: Vec<char>)
    ensures
        inner@ == trim(chars@),
{
    let mut start: usize = 0;
    while start < chars.len() && char_is_whitespace(chars[start])
        invariant
            start <= chars@.len(),
            forall|i: int| 0 <= i < start ==> is_whitespace(#[trigger] chars@[i]),
        decreases chars@.len() - start,
    {
        start = start + 1;
    }
    let mut end: usize = chars.len();
    while end > start && char_is_whitespace(chars[end - 1])
        invariant
            start <= end <= chars@.len(),
            forall|i: int| end <= i < chars@.len() ==> is_whitespace(#[trigger] chars@[i]),
        decreases end,
    {
        end = end - 1;
    }
    let mut inner: Vec<char> = Vec::new();
    let mut i: usize = start;
    while i < end
        invariant
            start <= i <= end <= chars@.len(),
            inner@ == chars@.subrange(start as int, i as int),
        decreases end - i,
    {
        inner.push(chars[i]);
        i = i + 1;
        assert(inner@ =~= chars@.subrange(start as int, i as int));
    }
    proof {
        let s = chars@;
        let front = s.skip(start as int);
        lemma_trim_start_skips(s, start as int);
        assert(trim_start(front) == front) by {
            if front.len() > 0 {
                assert(front.first() == s[start as int]);
            }
        }
        assert forall|i: int| end - start <= i < front.len() implies is_whitespace(
            #[trigger] front[i],
        ) by {
            assert(front[i] == s[i + start]);
        }
        lemma_trim_end_takes(front, end - start);
        let core = front.take(end - start);
        assert(core =~= s.subrange(start as int, end as int));
        assert(trim_end(core) == core) by {
            if core.len() > 0 {
                assert(core.last() == s[end - 1]);
            }
        }
    }
    inner
}

/// Reads a byte written in decimal.
fn parse_byte(chars: &Vec<char>) -> (value: Option<u8>)
    ensures
        value == parse_u8(chars@),
{
    let from: usize = if chars.len() > 0 && chars[0] == '+' {
        1
    } else {
        0
    };
    let ghost digits = chars@.skip(from as int);
    assert(digits =~= without_plus(chars@));
    if from >= chars.len() {
        return None;
    }
    let mut total: u32 = 0;
    let mut i: usize = from;
    while i < chars.len()
        invariant
            from <= i <= chars@.len(),
            digits == chars@.skip(from as int),
            digits == without_plus(chars@),
            forall|k: int| 0 <= k < i - from ==> is_digit(#[trigger] digits[k]),
            total == digits_value(digits.take(i - from)),
            total <= u8::MAX,
        decreases chars@.len() - i,
    {
        let c = chars[i];
        assert(digits[i - from] == c);
        if !('0' <= c && c <= '9') {
            assert(!all_digits(digits));
            return None;
        }
        let digit = c as u32 - '0' as u32;
        proof {
            let longer = digits.take(i - from + 1);
            assert(longer.drop_last() =~= digits.take(i - from));
            assert(longer.last() == c);
        }
        total = total * 10 + digit;
        i = i + 1;
        if total > 255 {
            proof {
                if all_digits(digits) {
                    lemma_digits_value_grows(digits, i - from);
                }
            }
            return None;
        }
    }
    assert(digits.take(i - from) =~= digits);
    Some(total as u8)
}

/// Whether a text begins with the name prefix of a battery.
fn has_battery_prefix(chars: &Vec<char>) -> (r: bool)
    ensures
        r == battery_prefix().is_prefix_of(chars@),
{
    let r = chars.len() >= 3 && chars[0] == 'B' && chars[1] == 'A' && chars[2] == 'T';
    proof {
        if r {
            assert(chars@.subrange(0, 3) =~= battery_prefix());
        } else if chars@.len() >= 3 {
            let head = chars@.subrange(0, 3);
            assert(head[0] == chars@[0] && head[1] == chars@[1] && head[2] == chars@[2]);
        }
    }
    r
}

/// Whether a text is the kind of a battery.
fn is_battery_kind(chars: &Vec<char>) -> (r: bool)
    ensures
        r == (chars@ == battery_kind()),
{
    let r = chars.len() == 7 && chars[0] == 'B' && chars[1] == 'a' && chars[2] == 't' && chars[3]
        == 't' && chars[4] == 'e' && chars[5] == 'r' && chars[6] == 'y';
    proof {
        if r {
            assert(chars@ =~= battery_kind());
        }
    }
    r
}

/// Limits a level to a percentage: 0 for anything below, 100 for anything
/// above.
pub fn clamp_percent(level: i16) -> (pct: u8)
    ensures
        pct == percent(level as int),
        pct <= BATTERY_FULL,
{
    if level < 0 {
        0
    } else if level > 100 {
        100
    } else {
        level as u8
    }
}

/// The level that one supply gives, if it is a battery with a readable
/// capacity.
pub fn supply_level(supply: &PowerSupply) -> (level: Option<u8>)
    ensures
        level == supply@.level(),
        level matches Some(pct) ==> pct <= BATTERY_FULL,
{
    let is_battery = match &supply.kind {
        Some(kind) => {
            let chars = chars_of(kind.as_str());
            is_battery_kind(&trimmed(&chars))
        },
        None => match &supply.name {
            Some(name) => has_battery_prefix(&chars_of(name.as_str())),
            None => false,
        },
    };
    if !is_battery {
        return None;
    }
    match &supply.capacity {
        Some(text) => {
            let chars = chars_of(text.as_str());
            match parse_byte(&trimmed(&chars)) {
                Some(value) => Some(clamp_percent(value as i16)),
                None => None,
            }
        },
        None => None,
    }
}

/// The host's battery level in percent: the level of the first supply that is
/// a battery and whose capacity is a number. `None` if no supply gives one.
pub fn get_battery_percent(supplies: &Vec<PowerSupply>) -> (level: Option<u8>)
    ensures
        level == battery_percent(models(supplies@)),
        level matches Some(pct) ==> pct <= BATTERY_FULL,
{
    let ghost all = models(supplies@);
    assert(all.skip(0) =~= all);
    let mut i: usize = 0;
    while i < supplies.len()
        invariant
            i <= supplies@.len(),
            all == models(supplies@),
            battery_percent(all) == battery_percent(all.skip(i as int)),
        decreases supplies@.len() - i,
    {
        let found = supply_level(&supplies[i]);
        proof {
            let rest = all.skip(i as int);
            assert(rest.first() == supplies@[i as int]@);
            assert(rest.drop_first() =~= all.skip(i + 1));
        }
        if found.is_some() {
            return found;
        }
        i = i + 1;
    }
    assert(all.skip(i as int).len() == 0);
    None
}

/// What a poll of the battery level leads to: the command to send, if the
/// reading is a level other than the one sent last, and the level that counts
/// as sent from then on.
pub open spec fn polled(last_sent: Option<u8>, reading: Option<u8>) -> (Option<u8>, Option<AppCmd>) {
    match reading {
        Some(level) => {
            if last_sent == Some(level) {
                (last_sent, None)
            } else {
                (Some(level), Some(AppCmd::Battery(level)))
            }
        },
        None => (last_sent, None),
    }
}

/// Remembers the battery level that was sent last, so that a level is sent
/// only when it has changed.
pub struct BatteryPoller {
    last_sent: Option<u8>,
}

impl View for BatteryPoller {
    type V = Option<u8>;

    closed spec fn view(&self) -> Option<u8> {
        self.last_sent
    }
}

impl BatteryPoller {
    /// A poller that has sent nothing yet.
    pub fn new() -> (poller: BatteryPoller)
        ensures
            poller@ is None,
    {
        BatteryPoller { last_sent: None }
    }

    /// Takes a reading and returns the command to send for it, if any.
    pub fn poll(&mut self, reading: Option<u8>) -> (cmd: Option<AppCmd>)
        ensures
            (final(self)@, cmd) == polled(old(self)@, reading),
    {
        match reading {
            Some(level) => {
                if self.last_sent == Some(level) {
                    None
                } else {
                    self.last_sent = Some(level);
                    Some(AppCmd::Battery(level))
                }
            },
            None => None,
        }
    }
}

/// Polling the same reading again sends nothing.
pub proof fn lemma_poll_sends_once(last_sent: Option<u8>, reading: Option<u8>)
    ensures
        polled(polled(last_sent, reading).0, reading) == (polled(last_sent, reading).0, None::<AppCmd>),
{
}

} // verus!
