//! Broadcasting an issue to the confirmed subscribers. A stored address that
//! no longer validates is skipped, so that one bad row does not stop the
//! delivery to the others.
use vstd::prelude::*;
use crate::domain::{rejection, valid_email, SubscriberEmail};
use crate::subscriptions::OutgoingEmail;

verus! {

/// The two bodies of an issue.
pub struct Content {
    pub html: String,
    pub text: String,
}

/// An issue as the operator posts it.
pub struct BodyData {
    pub title: String,
    pub content: Content,
}

/// Why a broadcast failed.
#[derive(Debug)]
pub enum PublishError {
    /// The store failed: answered with 500.
    UnexpectedError(String),
}

impl PublishError {
    pub open spec fn spec_status_code(&self) -> u16 {
        match self {
            PublishError::UnexpectedError(_) => 500,
        }
    }

    /// The HTTP status that answers the request.
    pub fn status_code(&self) -> (r: u16)
        ensures
            r == self.spec_status_code(),
    {
        match self {
            PublishError::UnexpectedError(_) => 500,
        }
    }
}

/// A confirmed subscriber whose stored address validates.
pub struct ConfirmedSubscriber {
    pub email: SubscriberEmail,
}

/// The stored addresses that validate, in their order.
pub open spec fn deliverable(rows: Seq<Seq<char>>) -> Seq<Seq<char>>
    decreases rows.len(),
{
    if rows.len() == 0 {
        Seq::empty()
    } else {
        let rest = deliverable(rows.drop_last());
        if valid_email(rows.last()) {
            rest.push(rows.last())
        } else {
            rest
        }
    }
}

/// The text of each stored address.
pub open spec fn rows_text(rows: Seq<String>) -> Seq<Seq<char>> {
    rows.map_values(|r: String| r@)
}

/// Validates the address of each confirmed subscriber, row by row.
pub fn get_confirmed_subscribers(rows: Vec<String>) -> (r: Vec<Result<ConfirmedSubscriber, String>>)
    ensures
        r@.len() == rows@.len(),
        forall|i: int|
            0 <= i < rows@.len() ==> match #[trigger] r@[i] {
                Ok(s) => valid_email(rows@[i]@) && s.email@ == rows@[i]@,
                Err(e) => !valid_email(rows@[i]@) && e@ == rejection(rows@[i]@, "email"@),
            },
{
    let mut r: Vec<Result<ConfirmedSubscriber, String>> = Vec::new();
    let mut i: usize = 0;
    while i < rows.len()
        invariant
            i <= rows@.len(),
            r@.len() == i,
            forall|k: int|
                0 <= k < i ==> match #[trigger] r@[k] {
                    Ok(s) => valid_email(rows@[k]@) && s.email@ == rows@[k]@,
                    Err(e) => !valid_email(rows@[k]@) && e@ == rejection(rows@[k]@, "email"@),
                },
        decreases rows.len() - i,
    {
        let row = rows[i].clone();
        match SubscriberEmail::parse(row) {
            Ok(email) => r.push(Ok(ConfirmedSubscriber { email })),
            Err(e) => r.push(Err(e)),
        }
        i = i + 1;
    }
    r
}

/// One email per confirmed subscriber whose address validates, in the order
/// of the rows, each with the issue's title and bodies. The others are
/// skipped.
pub fn publish_newsletter(rows: &Vec<String>, body: &BodyData) -> (r: Vec<OutgoingEmail>)
    ensures
        r@.len() == deliverable(rows_text(rows@)).len(),
        forall|i: int|
            #![trigger r@[i]]
            0 <= i < r@.len() ==> {
                &&& r@[i].recipient@ == deliverable(rows_text(rows@))[i]
                &&& r@[i].subject@ == body.title@
                &&& r@[i].html_body@ == body.content.html@
                &&& r@[i].text_body@ == body.content.text@
            },
{
    let mut r: Vec<OutgoingEmail> = Vec::new();
    let mut i: usize = 0;
    while i < rows.len()
        invariant
            i <= rows@.len(),
            r@.len() == deliverable(rows_text(rows@).take(i as int)).len(),
            forall|k: int|
                #![trigger r@[k]]
                0 <= k < r@.len() ==> {
                    &&& r@[k].recipient@ == deliverable(rows_text(rows@).take(i as int))[k]
                    &&& r@[k].subject@ == body.title@
                    &&& r@[k].html_body@ == body.content.html@
                    &&& r@[k].text_body@ == body.content.text@
                },
        decreases rows.len() - i,
    {
        let ghost prefix = rows_text(rows@).take(i as int);
        let ghost next = rows_text(rows@).take(i + 1);
        assert(next.drop_last() =~= prefix);
        assert(next.last() == rows@[i as int]@);
        if crate::domain::is_valid_email(rows[i].as_str()) {
            let mail = OutgoingEmail {
                recipient: rows[i].clone(),
                subject: body.title.clone(),
                html_body: body.content.html.clone(),
                text_body: body.content.text.clone(),
            };
            r.push(mail);
        }
        i = i + 1;
    }
    assert(rows_text(rows@).take(rows@.len() as int) =~= rows_text(rows@));
    assert(deliverable(rows_text(rows@).take(rows@.len() as int)) == deliverable(rows_text(rows@)));
    r
}

proof fn lemma_all_deliverable(rows: Seq<Seq<char>>)
    requires
        forall|i: int| 0 <= i < rows.len() ==> valid_email(#[trigger] rows[i]),
    ensures
        deliverable(rows).len() == rows.len(),
    decreases rows.len(),
{
    if rows.len() > 0 {
        lemma_all_deliverable(rows.drop_last());
    }
}

/// Among the confirmed subscribers, one whose stored address is malformed is
/// skipped and each of the others gets the issue: with exactly one malformed
/// address among `n`, `n - 1` emails go out.
pub proof fn one_malformed_address_is_skipped(rows: Seq<Seq<char>>, bad: int)
    requires
        0 <= bad < rows.len(),
        !valid_email(rows[bad]),
        forall|i: int| 0 <= i < rows.len() && i != bad ==> valid_email(#[trigger] rows[i]),
    ensures
        deliverable(rows).len() == rows.len() - 1,
    decreases rows.len(),
{
    if bad == rows.len() - 1 {
        lemma_all_deliverable(rows.drop_last());
    } else {
        one_malformed_address_is_skipped(rows.drop_last(), bad);
    }
}

} // verus!
