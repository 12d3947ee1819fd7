use vstd::prelude::*;

verus! {

/// The two kinds of failure the tool reports.
///
/// A user fault is caused by the operator (bad arguments, unreachable or
/// forbidden resources) and is shown verbatim. A developer fault is an
/// unexpected state (an undecodable payload, a protocol surprise) and is
/// shown with an invitation to report it.
#[derive(Debug)]
pub enum CerberusError {
    UserFault(String),
    DevFault(String),
}

/// Header printed before the details of a developer fault.
pub const DEV_FAULT_HEADER: &'static str =
    "You encountered an application unexpected error. Please report an issue there https://github.com/YoEight/cerberus/issues/new:\nUnexpected error >>= ";

impl CerberusError {
    /// The message carried by the error, whatever its kind.
    pub open spec fn text(&self) -> Seq<char> {
        match self {
            CerberusError::UserFault(m) => m@,
            CerberusError::DevFault(m) => m@,
        }
    }

    pub fn user_fault(msg: &str) -> (r: CerberusError)
        ensures
            r is UserFault,
            r.text() == msg@,
    {
        CerberusError::UserFault(msg.to_owned())
    }

    pub fn dev_fault(msg: &str) -> (r: CerberusError)
        ensures
            r is DevFault,
            r.text() == msg@,
    {
        CerberusError::DevFault(msg.to_owned())
    }

    pub fn boxed(self) -> (r: Box<CerberusError>)
        ensures
            *r == self,
    {
        Box::new(self)
    }

    /// The text shown to the operator: a user fault verbatim, a developer
    /// fault after a header asking for a bug report.
    pub fn message(&self) -> (r: String)
        ensures
            self is UserFault ==> r@ == self.text(),
            self is DevFault ==> r@ == DEV_FAULT_HEADER@ + self.text(),
    {
        match self {
            CerberusError::UserFault(m) => m.clone(),
            CerberusError::DevFault(m) => {
                let mut out = DEV_FAULT_HEADER.to_owned();
                out.append(m.as_str());
                out
            },
        }
    }
}

} // verus!
