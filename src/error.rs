use vstd::prelude::*;

verus! {

/// Every failure that the wrapper reports to its host.
#[derive(Debug)]
pub enum EtcdFdwError {
    FetchError(String),
    UpdateError(String),
    ClientConnectionError(String),
    NoConnStr,
    CertKeyMismatch,
    UserPassMismatch,
    MissingColumn(String),
    KeyAlreadyExists(String),
    ConflictingPrefixAndRange,
    ConflictingPrefixAndKey,
    KeyDoesntExist(String),
    InvalidOption(String, String),
    InvalidSortField(String),
    /// A required table or server option (named here) is not specified.
    OptionsError(String),
}

/// The mathematical value of an error: the variant with its text as characters.
pub ghost enum ErrorModel {
    FetchError(Seq<char>),
    UpdateError(Seq<char>),
    ClientConnectionError(Seq<char>),
    NoConnStr,
    CertKeyMismatch,
    UserPassMismatch,
    MissingColumn(Seq<char>),
    KeyAlreadyExists(Seq<char>),
    ConflictingPrefixAndRange,
    ConflictingPrefixAndKey,
    KeyDoesntExist(Seq<char>),
    InvalidOption(Seq<char>, Seq<char>),
    InvalidSortField(Seq<char>),
    OptionsError(Seq<char>),
}

impl View for EtcdFdwError {
    type V = ErrorModel;

    open spec fn view(&self) -> ErrorModel {
        match self {
            EtcdFdwError::FetchError(m) => ErrorModel::FetchError(m@),
            EtcdFdwError::UpdateError(m) => ErrorModel::UpdateError(m@),
            EtcdFdwError::ClientConnectionError(m) => ErrorModel::ClientConnectionError(m@),
            EtcdFdwError::NoConnStr => ErrorModel::NoConnStr,
            EtcdFdwError::CertKeyMismatch => ErrorModel::CertKeyMismatch,
            EtcdFdwError::UserPassMismatch => ErrorModel::UserPassMismatch,
            EtcdFdwError::MissingColumn(c) => ErrorModel::MissingColumn(c@),
            EtcdFdwError::KeyAlreadyExists(k) => ErrorModel::KeyAlreadyExists(k@),
            EtcdFdwError::ConflictingPrefixAndRange => ErrorModel::ConflictingPrefixAndRange,
            EtcdFdwError::ConflictingPrefixAndKey => ErrorModel::ConflictingPrefixAndKey,
            EtcdFdwError::KeyDoesntExist(k) => ErrorModel::KeyDoesntExist(k@),
            EtcdFdwError::InvalidOption(k, v) => ErrorModel::InvalidOption(k@, v@),
            EtcdFdwError::InvalidSortField(f) => ErrorModel::InvalidSortField(f@),
            EtcdFdwError::OptionsError(o) => ErrorModel::OptionsError(o@),
        }
    }
}

/// A result seen through the error's model, the success value kept as it is.
pub open spec fn result_model<T>(r: Result<T, EtcdFdwError>) -> Result<T, ErrorModel> {
    match r {
        Ok(v) => Ok(v),
        Err(e) => Err(e@),
    }
}

} // verus!
