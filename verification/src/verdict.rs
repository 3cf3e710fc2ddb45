//! The orchestrator's decision core: which single read of the one-shot
//! response body to perform, and whether the response matches the
//! expectation on the branch that the status selects.

use vstd::prelude::*;
use vstd::std_specs::cmp::PartialEqSpec;

use crate::request::Expected;
use crate::response::GraphQLResponseReciever;

verus! {

/// The HTTP status code that selects the success path.
pub const STATUS_OK: u16 = 200;

/// Which single read of the one-shot response body the orchestrator must
/// perform.  A response body is typically readable only once, so exactly
/// one read path is taken, never both and never speculatively.
#[derive(Clone, Copy, PartialEq, Eq, Structural, Debug)]
pub enum ReadPlan {
    /// The status differs from the expectation: the run has already
    /// failed, and the raw body is read once only for the diagnostic
    /// message of that failure.
    Diagnose,
    /// Status as expected and OK: decode the body as a response envelope.
    DecodeEnvelope,
    /// Status as expected but not OK: read the raw body as UTF-8 text.
    RawText,
}

/// The verdict of one orchestrated test invocation.  Every variant but
/// `Pass` is a hard failure of the enclosing test case; none are
/// recoverable or retried.
#[derive(Clone, Copy, PartialEq, Eq, Structural, Debug)]
pub enum Outcome {
    /// The response matched the expectation.
    Pass,
    /// The response status differed from the expected status.
    StatusMismatch,
    /// Success path: the envelope's error messages differed from the
    /// expected message list.
    MessagesMismatch,
    /// Success path: data was expected but the envelope carried none.
    /// The test fixture itself is wrong, and the failure is fatal.
    DataMissing,
    /// Success path: the envelope's data differed from the expected data.
    DataMismatch,
    /// Error path: no expected error message was supplied although the
    /// expected status is not OK.  A malformed test case, reported
    /// fatally before the body is even compared.
    MissingErrorExpectation,
    /// Error path: the raw body text differed from the first expected
    /// error message.
    BodyMismatch,
}

/// The read plan for a pair of actual and expected status codes.
pub open spec fn spec_read_plan(got_status: u16, expected_status: u16) -> ReadPlan {
    if got_status != expected_status {
        ReadPlan::Diagnose
    } else if got_status == STATUS_OK {
        ReadPlan::DecodeEnvelope
    } else {
        ReadPlan::RawText
    }
}

/// Decides which single body read to perform, from the actual and the
/// expected status code alone, before any body is touched.
pub fn plan_read(got_status: u16, expected_status: u16) -> (p: ReadPlan)
    ensures
        p == spec_read_plan(got_status, expected_status),
        p is Diagnose <==> got_status != expected_status,
        p is DecodeEnvelope <==> got_status == expected_status && got_status == STATUS_OK,
        p is RawText <==> got_status == expected_status && got_status != STATUS_OK,
{
    if got_status != expected_status {
        ReadPlan::Diagnose
    } else if got_status == STATUS_OK {
        ReadPlan::DecodeEnvelope
    } else {
        ReadPlan::RawText
    }
}

/// Success path: the expectation names a message list and the envelope's
/// messages differ from it (order- and length-sensitive).
pub open spec fn messages_mismatch<V: PartialEq>(
    got: GraphQLResponseReciever<V>,
    exp: Expected<V>,
) -> bool {
    exp.errmsg is Some && got.messages_view() != exp.errmsg->0.deep_view()
}

/// Success path: the expectation names a data value but the envelope
/// carries none.
pub open spec fn data_missing<V: PartialEq>(
    got: GraphQLResponseReciever<V>,
    exp: Expected<V>,
) -> bool {
    exp.data is Some && got.data is None
}

/// The verdict of the success path: the message list is checked first,
/// then presence of data, then the data value, each check skipped when
/// the corresponding expectation field is absent (absence means "don't
/// care", not "expect absent").
pub open spec fn success_outcome<V: PartialEq>(
    got: GraphQLResponseReciever<V>,
    exp: Expected<V>,
) -> Outcome {
    if messages_mismatch(got, exp) {
        Outcome::MessagesMismatch
    } else if data_missing(got, exp) {
        Outcome::DataMissing
    } else if exp.data is Some && !got.data->0.eq_spec(&exp.data->0) {
        Outcome::DataMismatch
    } else {
        Outcome::Pass
    }
}

/// Compares two string vectors element by element, at the level of their
/// character sequences.
fn string_vecs_equal(a: &Vec<String>, b: &Vec<String>) -> (r: bool)
    ensures
        r <==> a.deep_view() == b.deep_view(),
{
    if a.len() != b.len() {
        proof {
            assert(a.deep_view().len() != b.deep_view().len());
        }
        return false;
    }
    let mut i: usize = 0;
    while i < a.len()
        invariant
            i <= a.len(),
            a@.len() == b@.len(),
            forall|j: int| 0 <= j < i ==> a@[j]@ == b@[j]@,
        decreases a.len() - i,
    {
        if !(a[i] == b[i]) {
            proof {
                assert(a.deep_view()[i as int] != b.deep_view()[i as int]);
            }
            return false;
        }
        i = i + 1;
    }
    proof {
        assert(a.deep_view() =~= b.deep_view());
    }
    true
}

/// Judges a decoded envelope against the expectation on the success
/// path.  The data comparison uses `V`'s own equality; where that
/// equality obeys its specification, the verdict is exactly
/// `success_outcome`, and the message and data-presence checks are exact
/// in every case.
pub fn validate_success<V: PartialEq>(
    got: &GraphQLResponseReciever<V>,
    exp: &Expected<V>,
) -> (o: Outcome)
    ensures
        V::obeys_eq_spec() ==> o == success_outcome(*got, *exp),
        o is MessagesMismatch <==> messages_mismatch(*got, *exp),
        o is DataMissing <==> !messages_mismatch(*got, *exp) && data_missing(*got, *exp),
        !messages_mismatch(*got, *exp) && !data_missing(*got, *exp) && exp.data is None
            ==> o is Pass,
        !messages_mismatch(*got, *exp) && !data_missing(*got, *exp) && exp.data is Some
            ==> (o is Pass || o is DataMismatch),
{
    if let Some(em) = &exp.errmsg {
        let msgs = got.get_messages();
        if !string_vecs_equal(&msgs, em) {
            return Outcome::MessagesMismatch;
        }
    }
    match &exp.data {
        Some(v) => {
            if got.data.is_none() {
                return Outcome::DataMissing;
            }
            let g = got.get_data();
            if *g == *v {
                Outcome::Pass
            } else {
                Outcome::DataMismatch
            }
        },
        None => Outcome::Pass,
    }
}

/// The first expected error message of the error path, or `None` when
/// the expectation is malformed: an absent or empty message list.
pub open spec fn spec_first_error_message<V>(exp: Expected<V>) -> Option<Seq<char>> {
    match exp.errmsg {
        Some(msgs) => if msgs@.len() > 0 {
            Some(msgs@[0]@)
        } else {
            None
        },
        None => None,
    }
}

/// Extracts the sole error message the error path compares against: the
/// first entry of `errmsg`.  Returns `None` exactly when the expectation
/// is malformed (no `errmsg`, or an empty list); a caller on the error
/// path must then fail fatally before reading any body.
pub fn first_error_message<V>(exp: &Expected<V>) -> (r: Option<String>)
    ensures
        r is Some <==> spec_first_error_message(*exp) is Some,
        r is Some ==> r->0@ == spec_first_error_message(*exp)->0,
{
    match &exp.errmsg {
        Some(msgs) => {
            if msgs.len() > 0 {
                Some(msgs[0].clone())
            } else {
                None
            }
        },
        None => None,
    }
}

/// Judges the raw body text of a non-OK response against the expected
/// error message: an exact, character-for-character comparison, with no
/// JSON decoding attempted.
pub fn validate_error_body(expected_msg: &String, body_text: &String) -> (o: Outcome)
    ensures
        o is Pass <==> body_text@ == expected_msg@,
        o is Pass || o is BodyMismatch,
{
    if *body_text == *expected_msg {
        Outcome::Pass
    } else {
        Outcome::BodyMismatch
    }
}

/// The verdict of the error path: fatal when no message is expected,
/// otherwise an exact comparison of the body text against the first
/// expected message.  Later entries of `errmsg` are never consulted.
pub open spec fn error_outcome<V>(exp: Expected<V>, body_text: Seq<char>) -> Outcome {
    match spec_first_error_message(exp) {
        Some(m) => if body_text == m {
            Outcome::Pass
        } else {
            Outcome::BodyMismatch
        },
        None => Outcome::MissingErrorExpectation,
    }
}

/// The verdict of one whole orchestrated run, given the expectation, the
/// response status, and the decoded body of the branch that the status
/// selects: the envelope on the success path, the raw text on the error
/// path.
pub open spec fn run_outcome<V: PartialEq>(
    exp: Expected<V>,
    got_status: u16,
    envelope: GraphQLResponseReciever<V>,
    body_text: Seq<char>,
) -> Outcome {
    if got_status != exp.status {
        Outcome::StatusMismatch
    } else if got_status == STATUS_OK {
        success_outcome(envelope, exp)
    } else {
        error_outcome(exp, body_text)
    }
}

/// The read plan picks exactly the branch whose comparison decides the
/// outcome of the whole run: on differing status codes the outcome is
/// fixed by those codes, a decoded envelope is judged by the success-path
/// rules, and raw body text by the error-path rules.
pub proof fn lemma_plan_selects_branch<V: PartialEq>(
    exp: Expected<V>,
    got_status: u16,
    envelope: GraphQLResponseReciever<V>,
    body_text: Seq<char>,
)
    ensures
        spec_read_plan(got_status, exp.status) is Diagnose
            ==> run_outcome(exp, got_status, envelope, body_text) == Outcome::StatusMismatch,
        spec_read_plan(got_status, exp.status) is DecodeEnvelope
            ==> run_outcome(exp, got_status, envelope, body_text)
                == success_outcome(envelope, exp),
        spec_read_plan(got_status, exp.status) is RawText
            ==> run_outcome(exp, got_status, envelope, body_text)
                == error_outcome(exp, body_text),
{
}

/// On the error path, a missing message expectation is fatal on its own:
/// the verdict is `MissingErrorExpectation` whatever the response body
/// holds, so the run fails before any body comparison.
pub proof fn lemma_missing_expectation_is_fatal<V: PartialEq>(
    exp: Expected<V>,
    got_status: u16,
    envelope: GraphQLResponseReciever<V>,
    t1: Seq<char>,
    t2: Seq<char>,
)
    requires
        got_status == exp.status,
        got_status != STATUS_OK,
        spec_first_error_message(exp) is None,
    ensures
        run_outcome(exp, got_status, envelope, t1) == Outcome::MissingErrorExpectation,
        run_outcome(exp, got_status, envelope, t1) == run_outcome(exp, got_status, envelope, t2),
{
}

/// Idempotence of the orchestrator: two runs over expectations and
/// responses with the same abstract content — equal status codes, equal
/// message sequences, equal body text and structurally equal data —
/// yield the same verdict.  In particular, running the same pure inputs
/// twice gives the same outcome both times.
pub proof fn lemma_run_outcome_deterministic<V: PartialEq>(
    exp1: Expected<V>,
    exp2: Expected<V>,
    status1: u16,
    status2: u16,
    env1: GraphQLResponseReciever<V>,
    env2: GraphQLResponseReciever<V>,
    t1: Seq<char>,
    t2: Seq<char>,
)
    requires
        status1 == status2,
        exp1.status == exp2.status,
        exp1.errmsg is Some <==> exp2.errmsg is Some,
        exp1.errmsg is Some ==> exp1.errmsg->0.deep_view() == exp2.errmsg->0.deep_view(),
        exp1.data == exp2.data,
        env1.data == env2.data,
        env1.messages_view() == env2.messages_view(),
        t1 == t2,
    ensures
        run_outcome(exp1, status1, env1, t1) == run_outcome(exp2, status2, env2, t2),
{
    if exp1.errmsg is Some {
        let m1 = exp1.errmsg->0;
        let m2 = exp2.errmsg->0;
        assert(m1.deep_view().len() == m1@.len());
        assert(m2.deep_view().len() == m2@.len());
        if m1@.len() > 0 {
            assert(m1.deep_view()[0] == m1@[0]@);
            assert(m2.deep_view()[0] == m2@[0]@);
        }
    }
}

} // verus!
