//! What a user's conversion service offers: how it reads a request and how
//! it writes a response. The conversion itself is the user's and may take
//! its time; the steps around it are fixed here.

use crate::rpc::conv_svc::{ConvertRequest, ConvertResponse};
use crate::status::Status;
use vstd::prelude::*;

verus! {

/// A conversion service in three steps: read the request into an input,
/// convert the input into an output, write the output into a response.
pub trait ConvService: Sized {
    /// What a request is read into.
    type Input;

    /// What a conversion gives.
    type Output;

    /// Reads a request into the input of the conversion.
    fn req2i(&self, req: ConvertRequest) -> Result<Self::Input, Status>;

    /// Writes the output of the conversion into a response.
    fn o2res(&self, o: Self::Output) -> Result<ConvertResponse, Status>;

    /// The answer to a request once its conversion has ended with
    /// `converted`: a failed conversion is passed on as it is, an output is
    /// written into the response.
    fn answer(&self, converted: Result<Self::Output, Status>) -> (r: Result<
        ConvertResponse,
        Status,
    >)
        default_ensures
            match converted {
                Ok(o) => call_ensures(Self::o2res, (self, o), r),
                Err(e) => r == Err::<ConvertResponse, Status>(e),
            },
    {
        match converted {
            Ok(o) => self.o2res(o),
            Err(e) => Err(e),
        }
    }
}

} // verus!
