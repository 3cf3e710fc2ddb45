//! The GraphQL response envelope: an optional typed `data` value and an
//! optional ordered list of errors, each carrying a `message` string.

use vstd::prelude::*;

verus! {

/// One error entry of a GraphQL response.  Only the `message` field is
/// modelled; `locations` and `paths` are intentionally dropped.
pub struct GraphQLResponseError {
    /// A string error message.
    pub message: String,
}

/// The decoded GraphQL response envelope.  Under the GraphQL convention
/// this library assumes, at most one of `data` / `errors` is meaningfully
/// populated, but the model does not enforce this: callers interpret the
/// envelope based on the HTTP status.
pub struct GraphQLResponseReciever<T: PartialEq> {
    /// The data specified by this struct's type parameter.  May be `None`.
    pub data: Option<T>,
    /// A vector of error structs.  May be `None`.
    pub errors: Option<Vec<GraphQLResponseError>>,
}

impl<T: PartialEq> GraphQLResponseReciever<T> {
    /// The ordered sequence of error messages this envelope carries:
    /// the `message` field of each error, in source order, and the empty
    /// sequence when the `errors` field is absent.
    pub open spec fn messages_view(&self) -> Seq<Seq<char>> {
        match self.errors {
            Some(errs) => errs@.map_values(|e: GraphQLResponseError| e.message@),
            None => Seq::empty(),
        }
    }

    /// Unwraps and returns the data member.  An envelope without data on
    /// the success path indicates a broken test fixture, so callers must
    /// establish that data is present before asking for it.
    pub fn get_data(&self) -> (r: &T)
        requires
            self.data is Some,
        ensures
            r == self.data->0,
    {
        self.data.as_ref().unwrap()
    }

    /// Returns the `message` fields of all errors, with order maintained.
    /// If the optional `errors` field is `None`, an empty vector is
    /// returned, never an absent value.
    pub fn get_messages(&self) -> (r: Vec<String>)
        ensures
            r.deep_view() == self.messages_view(),
            self.errors is None ==> r@.len() == 0,
    {
        match &self.errors {
            Some(s) => {
                let mut out: Vec<String> = Vec::new();
                let mut i: usize = 0;
                while i < s.len()
                    invariant
                        i <= s.len(),
                        out@.len() == i,
                        forall|j: int| 0 <= j < i ==> out@[j]@ == s@[j].message@,
                    decreases s.len() - i,
                {
                    out.push(s[i].message.clone());
                    i = i + 1;
                }
                proof {
                    assert(out.deep_view() =~= s@.map_values(
                        |e: GraphQLResponseError| e.message@,
                    ));
                }
                out
            },
            None => {
                Vec::new()
            },
        }
    }
}

} // verus!
