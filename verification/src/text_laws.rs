//! What numerals and messages say.

use vstd::prelude::*;
use crate::bridge::{bridge_call, envelope, malformed, needs_no_payload, plain, reports_failure};
use crate::bridge::{reports_success, response};
use crate::exception::{key_fault, runtime_fault, value_fault, Exception, ExceptionKind};
use crate::fast::matrix_failure;
use crate::montecarlo::thread_pool_failure;
use crate::text::{contains, decimal, digit, numeral, occurs_at, same_text};
use crate::trajectory::{flag_name, TrajectoryFlag};

verus! {

/// The number that decimal digits stand for.
pub open spec fn numeral_value(s: Seq<char>) -> int
    decreases s.len(),
{
    if s.len() == 0 {
        0
    } else {
        10 * numeral_value(s.drop_last()) + (s.last() as int - '0' as int)
    }
}

/// A numeral reads back as its number, in decimal digits without a leading zero.
pub proof fn law_numerals_read_back(n: nat, i: int)
    ensures
        numeral_value(numeral(n)) == n,
        numeral(n).len() > 0,
        0 <= i < numeral(n).len() ==> '0' <= numeral(n)[i] <= '9',
        n > 0 ==> numeral(n)[0] != '0',
        n == 0 ==> numeral(n).len() == 1,
    decreases n,
{
    lemma_digit(n % 10);
    if n < 10 {
        let d = digit(n);
        assert(d.drop_last() =~= Seq::<char>::empty());
        assert(numeral_value(d.drop_last()) == 0);
    } else {
        let (front, d) = (numeral(n / 10), digit(n % 10));
        law_numerals_read_back(n / 10, i);
        law_numerals_read_back(n / 10, 0);
        assert(numeral(n).drop_last() =~= front);
        assert(numeral(n).last() == d[0]);
    }
}

proof fn lemma_digit(d: nat)
    requires
        d < 10,
    ensures
        digit(d).len() == 1,
        digit(d)[0] as int == '0' as int + d,
{
    reveal_strlit("0");
    reveal_strlit("1");
    reveal_strlit("2");
    reveal_strlit("3");
    reveal_strlit("4");
    reveal_strlit("5");
    reveal_strlit("6");
    reveal_strlit("7");
    reveal_strlit("8");
    reveal_strlit("9");
}

/// What is written for a count reads back as the count.
pub proof fn law_counts_are_written_out(n: u64, s: String)
    requires
        call_ensures(decimal, (n,), s),
    ensures
        numeral_value(s@) == n,
{
    law_numerals_read_back(n as nat, 0);
}

/// A text is found in another exactly if the other is something, the text and something
/// more, each of which may be nothing.
pub proof fn law_texts_are_found_within(
    text: &str,
    needle: &str,
    r: bool,
    before: Seq<char>,
    after: Seq<char>,
)
    requires
        call_ensures(contains, (text, needle), r),
    ensures
        text@ == before + needle@ + after ==> r,
        r ==> exists|at: int|
            0 <= at <= text@.len() - needle@.len() && #[trigger] text@.subrange(
                at,
                at + needle@.len(),
            ) == needle@,
{
    if text@ == before + needle@ + after {
        assert(text@.subrange(
            before.len() as int,
            (before.len() + needle@.len()) as int,
        ) =~= needle@);
        assert(occurs_at(text@, needle@, before.len() as int));
    }
    if r {
        let at = choose|at: int| occurs_at(text@, needle@, at);
        assert(text@.subrange(at, at + needle@.len()) == needle@);
    }
}

/// Two texts are the same if they agree in every character.
pub proof fn law_texts_are_the_same_letter_by_letter(a: &str, b: &str, r: bool)
    requires
        call_ensures(same_text, (a, b), r),
    ensures
        r <==> a@.len() == b@.len() && forall|i: int|
            0 <= i < a@.len() ==> #[trigger] a@[i] == b@[i],
{
    if a@.len() == b@.len() && forall|i: int| 0 <= i < a@.len() ==> #[trigger] a@[i] == b@[i] {
        assert(a@ =~= b@);
    }
}

/// Exceptions are of the class they are raised as and say what they are given; one that
/// is raised again is the same.
pub proof fn law_exceptions_say_what_they_are_given(
    m: String,
    v: Exception,
    k: Exception,
    r: Exception,
    e: &Exception,
    again: Exception,
)
    requires
        call_ensures(Exception::value_error, (m,), v),
        call_ensures(Exception::key_error, (m,), k),
        call_ensures(Exception::runtime_error, (m,), r),
        call_ensures(Exception::again, (e,), again),
    ensures
        v.kind == ExceptionKind::ValueError && v.message@ == m@,
        k.kind == ExceptionKind::KeyError && k.message@ == m@,
        r.kind == ExceptionKind::RuntimeError && r.message@ == m@,
        again == *e,
{
    assert(v@ == value_fault(m@) && k@ == key_fault(m@) && r@ == runtime_fault(m@));
}

/// Complaints from outside are raised as value errors that end in them.
pub proof fn law_complaints_are_passed_on(complaint: &str, t: Exception, m: Exception)
    requires
        call_ensures(thread_pool_failure, (complaint,), t),
        call_ensures(matrix_failure, (complaint,), m),
    ensures
        t.kind == ExceptionKind::ValueError && t.message@ == "Failed to build thread pool: "@
            + complaint@,
        m.kind == ExceptionKind::ValueError && m.message@ == "y matrix shape error: "@
            + complaint@,
{
    assert(t@ == value_fault("Failed to build thread pool: "@ + complaint@));
    assert(m@ == value_fault("y matrix shape error: "@ + complaint@));
}

/// What can happen at a sample has three different names.
pub proof fn law_flags_have_their_own_names(a: TrajectoryFlag, b: TrajectoryFlag)
    ensures
        flag_name(a) == flag_name(b) ==> a == b,
        flag_name(TrajectoryFlag::ZeroCrossing) == "zero_crossing"@,
        flag_name(TrajectoryFlag::MachTransition) == "mach_transition"@,
        flag_name(TrajectoryFlag::Apex) == "apex"@,
{
    reveal_strlit("zero_crossing");
    reveal_strlit("mach_transition");
    reveal_strlit("apex");
    assert("zero_crossing"@.len() == 13 && "mach_transition"@.len() == 15 && "apex"@.len() == 4);
}

/// A response is always an object, and it reports a failure for a request that no
/// command can be made of; an envelope for the version or the capabilities succeeds, and
/// the same envelope with another version fails.
pub proof fn law_requests_are_answered(
    request: &str,
    answer: String,
    command: Seq<char>,
    version: nat,
)
    requires
        call_ensures(bridge_call, (request,), answer),
        plain(command),
        request@ == envelope(version, command),
    ensures
        response(answer@),
        malformed(request@) ==> reports_failure(answer@),
        version == 1 && needs_no_payload(command) ==> reports_success(answer@, command),
        version != 1 ==> reports_failure(answer@),
        !needs_no_payload(command) ==> reports_failure(answer@),
{
}

} // verus!
