use vstd::prelude::*;
use vstd::string::StringExecFns;

verus! {

/// A notice that a device broke one of the configured rules.
pub struct Alert {
    pub device: String,
    pub message: String,
}

/// The character of a decimal digit.
pub open spec fn digit_char(d: nat) -> char {
    seq!['0', '1', '2', '3', '4', '5', '6', '7', '8', '9'][d as int]
}

/// The decimal digits of a natural number, most significant first.
pub open spec fn digits(n: nat) -> Seq<char>
    decreases n,
{
    if n < 10 {
        seq![digit_char(n)]
    } else {
        digits(n / 10).push(digit_char(n % 10))
    }
}

/// An integer written in decimal, with a leading `-` when negative.
pub open spec fn decimal(n: int) -> Seq<char> {
    if n < 0 {
        seq!['-'] + digits((-n) as nat)
    } else {
        digits(n as nat)
    }
}

/// Relies on std's `Display` for `i32` (through `to_string`): the number in
/// decimal, with a minus sign when negative and no padding.
#[verifier::external_body]
fn decimal_text(n: i32) -> (r: String)
    ensures
        r@ == decimal(n as int),
{
    n.to_string()
}

/// The text of an alert on CPU load.
pub open spec fn cpu_alert_text(load: int, max: int) -> Seq<char> {
    "CPU load is "@ + decimal(load) + "% (Threshold "@ + decimal(max) + "%)"@
}

/// The text of an alert on memory use.
pub open spec fn ram_alert_text(used: int, total: int, max: int) -> Seq<char> {
    "Ram usage is "@ + decimal(used) + "mb out of "@ + decimal(total) + "mb (Threshold "@
        + decimal(max) + "%)"@
}

/// The text of an alert on a critical process that stopped.
pub open spec fn service_alert_text(executable: Seq<char>) -> Seq<char> {
    "Critical process "@ + executable + " crashed"@
}

/// Builds the text of an alert on CPU load.
pub fn cpu_alert_message(load: i32, max: i32) -> (r: String)
    ensures
        r@ == cpu_alert_text(load as int, max as int),
{
    let mut s = String::from_str("CPU load is ");
    s.append(decimal_text(load).as_str());
    s.append("% (Threshold ");
    s.append(decimal_text(max).as_str());
    s.append("%)");
    s
}

/// Builds the text of an alert on memory use.
pub fn ram_alert_message(used: i32, total: i32, max: i32) -> (r: String)
    ensures
        r@ == ram_alert_text(used as int, total as int, max as int),
{
    let mut s = String::from_str("Ram usage is ");
    s.append(decimal_text(used).as_str());
    s.append("mb out of ");
    s.append(decimal_text(total).as_str());
    s.append("mb (Threshold ");
    s.append(decimal_text(max).as_str());
    s.append("%)");
    s
}

/// Builds the text of an alert on a stopped critical process.
pub fn service_alert_message(executable: &str) -> (r: String)
    ensures
        r@ == service_alert_text(executable@),
{
    let mut s = String::from_str("Critical process ");
    s.append(executable);
    s.append(" crashed");
    s
}

impl Alert {
    /// The line shown to an operator: `<device> --> <message>`.
    pub fn line(&self) -> (r: String)
        ensures
            r@ == self.device@ + " --> "@ + self.message@,
    {
        let mut s = String::from_str(self.device.as_str());
        s.append(" --> ");
        s.append(self.message.as_str());
        s
    }
}

} // verus!
