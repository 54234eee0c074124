//! The envelope in which every reply of the service's own interface comes.
use crate::text::optional_text;
use vstd::prelude::*;

verus! {

/// A reply: what was asked for, or why it could not be had.
pub struct ApiResponse<T> {
    pub success: bool,
    pub data: Option<T>,
    pub error: Option<String>,
}

/// What an [`ApiResponse`] holds.
pub struct ApiView<V> {
    pub success: bool,
    pub data: Option<V>,
    pub error: Option<Seq<char>>,
}

impl<T: DeepView> View for ApiResponse<T> {
    type V = ApiView<T::V>;

    open spec fn view(&self) -> ApiView<T::V> {
        ApiView {
            success: self.success,
            data: self.data.deep_view(),
            error: optional_text(self.error),
        }
    }
}

/// The reply that hands over `data`.
pub open spec fn api_success<V>(data: V) -> ApiView<V> {
    ApiView { success: true, data: Some(data), error: None }
}

/// The reply that gives `error` as the reason why there is no data.
pub open spec fn api_failure<V>(error: Seq<char>) -> ApiView<V> {
    ApiView { success: false, data: None, error: Some(error) }
}

/// Whether a reply is one of the two kinds: data and no error, or an error and no data.
pub open spec fn api_well_formed<V>(reply: ApiView<V>) -> bool {
    &&& reply.success == (reply.data is Some)
    &&& reply.success == (reply.error is None)
}

impl<T: DeepView> ApiResponse<T> {
    /// The reply that hands over `data`.
    pub fn success(data: T) -> (reply: ApiResponse<T>)
        ensures
            reply@ == api_success(data.deep_view()),
            api_well_formed(reply@),
    {
        ApiResponse { success: true, data: Some(data), error: None }
    }

    /// The reply that gives `error` as the reason why there is no data.
    pub fn failure(error: String) -> (reply: ApiResponse<T>)
        ensures
            reply@ == api_failure::<T::V>(error@),
            api_well_formed(reply@),
    {
        ApiResponse { success: false, data: None, error: Some(error) }
    }
}

/// A reply that hands over data is a success with that data and without an error, and one
/// that gives a reason is none, with that reason and without data.
pub proof fn law_replies_are_one_or_the_other<V>(data: V, error: Seq<char>)
    ensures
        api_success(data).success,
        api_success(data).data == Some(data),
        api_success(data).error is None,
        !api_failure::<V>(error).success,
        api_failure::<V>(error).data is None,
        api_failure::<V>(error).error == Some(error),
{
}

/// A reply shows all that it holds.
pub proof fn law_reply_shows_all_it_holds<T: DeepView>(reply: ApiResponse<T>)
    ensures
        reply@.success == reply.success,
        reply.data is Some ==> reply@.data == Some(reply.data->0.deep_view()),
        reply.data is None ==> reply@.data is None,
        reply.error is Some ==> reply@.error == Some(reply.error->0@),
        reply.error is None ==> reply@.error is None,
{
}

} // verus!
