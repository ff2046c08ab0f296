//! The error object of a response.

use vstd::prelude::*;
use vstd::string::to_string_from_display_ensures;

verus! {

/// The `data` member of an error object: a text of the library's own, or whatever a handler sends.
#[derive(Debug, PartialEq, Eq)]
pub enum ErrorData<B> {
    Text(String),
    Custom(B),
}

/// Error object in a response
#[allow(inconsistent_fields)]
#[derive(Debug, PartialEq, Eq)]
pub enum Error<B> {
    Full { code: i64, message: String, data: Option<ErrorData<B>> },
    Provided { code: i64, message: &'static str },
}

/// What the `data` member of an error object holds.
pub enum ErrorDataView<B> {
    Text(Seq<char>),
    Custom(B),
}

/// What an error object says.
pub struct ErrorView<B> {
    pub code: int,
    pub message: Seq<char>,
    pub data: Option<ErrorDataView<B>>,
}

impl<B> View for ErrorData<B> {
    type V = ErrorDataView<B>;

    open spec fn view(&self) -> ErrorDataView<B> {
        match *self {
            ErrorData::Text(text) => ErrorDataView::Text(text@),
            ErrorData::Custom(b) => ErrorDataView::Custom(b),
        }
    }
}

impl<B> View for Error<B> {
    type V = ErrorView<B>;

    open spec fn view(&self) -> ErrorView<B> {
        match *self {
            Error::Full { code, message, data } => ErrorView {
                code: code as int,
                message: message@,
                data: match data {
                    Some(d) => Some(d@),
                    None => None,
                },
            },
            Error::Provided { code, message } => ErrorView::bare(code as int, message@),
        }
    }
}

impl<B> ErrorView<B> {
    /// An error object without data.
    pub open spec fn bare(code: int, message: Seq<char>) -> Self {
        ErrorView { code, message, data: None }
    }

    pub open spec fn invalid_request() -> Self {
        ErrorView::bare(-32600, "Invalid Request"@)
    }

    pub open spec fn method_not_found() -> Self {
        ErrorView::bare(-32601, "Method not found"@)
    }

    pub open spec fn invalid_params() -> Self {
        ErrorView::bare(-32602, "Invalid params"@)
    }

    pub open spec fn internal_error() -> Self {
        ErrorView::bare(-32603, "Internal Error"@)
    }

    pub open spec fn parse_error() -> Self {
        ErrorView::bare(-32700, "Parse error"@)
    }

    /// The internal error with the given text as its data.
    pub open spec fn internal(text: Seq<char>) -> Self {
        ErrorView {
            code: -32603,
            message: "Internal Error"@,
            data: Some(ErrorDataView::Text(text)),
        }
    }
}

impl<B> Error<B> {
    /// The request is not a valid request object.
    pub fn invalid_request() -> (res: Self)
        ensures
            res is Provided,
            res@ == ErrorView::<B>::invalid_request(),
    {
        Error::Provided { code: -32600, message: "Invalid Request" }
    }

    /// No handler answers to the method.
    pub fn method_not_found() -> (res: Self)
        ensures
            res is Provided,
            res@ == ErrorView::<B>::method_not_found(),
    {
        Error::Provided { code: -32601, message: "Method not found" }
    }

    /// The params are not what the method takes.
    pub fn invalid_params() -> (res: Self)
        ensures
            res is Provided,
            res@ == ErrorView::<B>::invalid_params(),
    {
        Error::Provided { code: -32602, message: "Invalid params" }
    }

    /// The server failed.
    pub fn internal_error() -> (res: Self)
        ensures
            res is Provided,
            res@ == ErrorView::<B>::internal_error(),
    {
        Error::Provided { code: -32603, message: "Internal Error" }
    }

    /// The request is not JSON.
    pub fn parse_error() -> (res: Self)
        ensures
            res is Provided,
            res@ == ErrorView::<B>::parse_error(),
    {
        Error::Provided { code: -32700, message: "Parse error" }
    }

    /// An internal error with the given text as its data.
    pub fn internal_text(text: String) -> (res: Self)
        ensures
            res is Full,
            res@ == ErrorView::<B>::internal(text@),
    {
        Error::Full {
            code: -32603,
            message: "Internal Error".to_string(),
            data: Some(ErrorData::Text(text)),
        }
    }

    /// An internal error whose data is what `e` displays as.
    pub fn internal<D: std::fmt::Display + Send>(e: D) -> (res: Self)
        ensures
            res is Full,
            exists|text: String|
                #[trigger] to_string_from_display_ensures(&e, text) && res@
                    == ErrorView::<B>::internal(text@),
    {
        let text = e.to_string();
        assert(to_string_from_display_ensures(&e, text));
        Error::internal_text(text)
    }
}

/// Trait that can be used to map custom errors to the [`Error`] object.
pub trait ErrorLike: std::fmt::Display {
    /// What the error sends as additional data.
    type Data;

    /// Code to be used in JSON-RPC 2.0 Error object. Default is 0.
    fn code(&self) -> (code: i64)
        default_ensures
            code == 0,
    {
        0
    }

    /// Message to be used in JSON-RPC 2.0 Error object. Default is the `Display` value of the item.
    fn message(&self) -> (message: String)
        default_ensures
            to_string_from_display_ensures(self, message),
    {
        self.to_string()
    }

    /// Any additional data to be sent with the error. Default is `None`.
    fn data(&self) -> (data: Option<Self::Data>)
        default_ensures
            data is None,
    {
        None
    }
}

impl<T: ErrorLike> vstd::std_specs::convert::FromSpecImpl<T> for Error<T::Data> {
    open spec fn obeys_from_spec() -> bool {
        false
    }

    open spec fn from_spec(t: T) -> Self {
        arbitrary()
    }
}

/// What the error object says is what the three methods of [`ErrorLike`] return.
impl<T: ErrorLike> From<T> for Error<T::Data> {
    fn from(t: T) -> (res: Error<T::Data>)
        ensures
            res matches Error::Full { code, message, data } && {
                &&& call_ensures(T::code, (&t,), code)
                &&& call_ensures(T::message, (&t,), message)
                &&& data is None ==> call_ensures(T::data, (&t,), None)
                &&& data matches Some(d) ==> d matches ErrorData::Custom(c) && call_ensures(
                    T::data,
                    (&t,),
                    Some(c),
                )
            },
    {
        let data = match t.data() {
            Some(d) => Some(ErrorData::Custom(d)),
            None => None,
        };
        Error::Full { code: t.code(), message: t.message(), data }
    }
}

} // verus!
