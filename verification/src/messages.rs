//! The texts the watch produces: the one-shot notification's subject and
//! body, and the status lines recorded on each poll outcome.

use vstd::prelude::*;

verus! {

/// The subject of the notification email: it names the watched domain.
pub fn notification_subject(domain: &str) -> (r: String)
    ensures
        r@ == "Domain "@ + domain@ + " is available!"@,
{
    let mut s = String::from_str("Domain ");
    s.append(domain);
    s.append(" is available!");
    s
}

/// The fixed body of the notification email.
pub fn notification_body() -> (r: String)
    ensures
        r@ == "Domain available! Go get it!"@,
{
    String::from_str("Domain available! Go get it!")
}

/// The status line recorded when the domain turned out to be available.
pub fn available_message(domain: &str) -> (r: String)
    ensures
        r@ == "Domain "@ + domain@ + " is available!"@,
{
    notification_subject(domain)
}

/// The status line recorded while the domain is still registered.
pub fn still_taken_message(domain: &str) -> (r: String)
    ensures
        r@ == "Domain "@ + domain@ + " is still not available. Keep lurking."@,
{
    let mut s = String::from_str("Domain ");
    s.append(domain);
    s.append(" is still not available. Keep lurking.");
    s
}

} // verus!
