//! Facts about construction that hold for every pair of texts.

use crate::request::Request;
use crate::request::RequestView;
use crate::request::EMAIL_BLANK;
use crate::request::NAME_BLANK;
use crate::request::NAME_MAX_CHARS;
use crate::request::NAME_TOO_LONG;
use crate::text::lowercase;
use vstd::prelude::*;

verus! {

/// The three messages are pairwise different, so a message identifies the
/// check that failed.
pub proof fn lemma_messages_differ()
    ensures
        NAME_BLANK@ != NAME_TOO_LONG@,
        NAME_BLANK@ != EMAIL_BLANK@,
        NAME_TOO_LONG@ != EMAIL_BLANK@,
{
    reveal_strlit("Name must not be blank");
    reveal_strlit("Name must not be more than 50 chars");
    reveal_strlit("Email must not be blank");
    assert(NAME_BLANK@.len() == 22);
    assert(NAME_TOO_LONG@.len() == 35);
    assert(EMAIL_BLANK@.len() == 23);
}

/// The checks on the name come first: an empty name is reported as blank and
/// an overlong name as too long whatever the email is, in particular when the
/// email is empty too, and neither is ever reported as a blank email.
pub proof fn lemma_name_checks_come_first(texts: RequestView)
    ensures
        texts.name.len() == 0 ==> texts.outcome() == Err::<RequestView, Seq<char>>(NAME_BLANK@),
        texts.name.len() > NAME_MAX_CHARS ==> texts.outcome() == Err::<RequestView, Seq<char>>(
            NAME_TOO_LONG@,
        ),
        texts.name.len() == 0 || texts.name.len() > NAME_MAX_CHARS ==> texts.outcome() != Err::<
            RequestView,
            Seq<char>,
        >(EMAIL_BLANK@),
{
    lemma_messages_differ();
}

/// The length check accepts a name exactly when it has at most fifty
/// characters: a name of fifty characters is never reported as too long, and a
/// name of fifty-one characters always is.
pub proof fn lemma_length_boundary(texts: RequestView)
    ensures
        texts.name.len() <= NAME_MAX_CHARS <==> texts.outcome() != Err::<RequestView, Seq<char>>(
            NAME_TOO_LONG@,
        ),
        texts.name.len() == 50 ==> texts.outcome() != Err::<RequestView, Seq<char>>(
            NAME_TOO_LONG@,
        ),
        texts.name.len() == 51 ==> texts.outcome() == Err::<RequestView, Seq<char>>(
            NAME_TOO_LONG@,
        ),
{
    lemma_messages_differ();
}

/// A construction that fails returns nothing but the message of the first
/// failing check: the email is not lowercased, and no request is returned from
/// which an email could be read.
pub proof fn lemma_failure_returns_only_message(texts: RequestView, r: Result<Request, String>)
    requires
        texts.is_outcome(r),
        texts.rejection() is Some,
    ensures
        r is Err,
        r->Err_0@ == texts.rejection()->Some_0,
        r->Err_0@ == NAME_BLANK@ || r->Err_0@ == NAME_TOO_LONG@ || r->Err_0@ == EMAIL_BLANK@,
{
}

/// A construction succeeds exactly when no check fails, and the request it
/// then returns has the name as given, not empty and of at most fifty
/// characters, and for email the lowercase form of a text that was not empty.
pub proof fn lemma_success_returns_normalized(texts: RequestView, r: Result<Request, String>)
    requires
        texts.is_outcome(r),
    ensures
        r is Ok <==> texts.rejection() is None,
        r is Ok ==> {
            &&& r->Ok_0@.name == texts.name
            &&& 0 < r->Ok_0@.name.len() <= NAME_MAX_CHARS
            &&& r->Ok_0@.email == lowercase(texts.email)
            &&& texts.email.len() > 0
        },
{
}

/// Construction is a function of the two texts: two results for the same
/// texts agree on success, on the request and on the message.
pub proof fn lemma_construction_is_deterministic(
    texts: RequestView,
    first: Result<Request, String>,
    second: Result<Request, String>,
)
    requires
        texts.is_outcome(first),
        texts.is_outcome(second),
    ensures
        first is Ok <==> second is Ok,
        first is Ok ==> first->Ok_0@ == second->Ok_0@,
        first is Err ==> first->Err_0@ == second->Err_0@,
{
}

/// An email that lowercasing leaves as it is comes back as given: texts that
/// pass every check and whose email is its own lowercase form yield a request
/// holding exactly those texts.
pub proof fn lemma_lowercase_email_is_kept(texts: RequestView)
    requires
        texts.rejection() is None,
        lowercase(texts.email) == texts.email,
    ensures
        texts.outcome() == Ok::<RequestView, Seq<char>>(texts),
{
}

} // verus!
