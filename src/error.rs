use vstd::prelude::*;

verus! {

/// The errors of the driver core.
#[derive(Debug)]
pub enum AppError {
    /// A checked shell command exited with a non-zero code.
    CommandFailed { code: u32, output: String },
    /// Any other failure: parsing, a missing key, a timeout, a precondition.
    Generic(String),
}

/// The mathematical value of an [`AppError`].
pub enum AppErrorView {
    CommandFailed { code: u32, output: Seq<char> },
    Generic(Seq<char>),
}

impl View for AppError {
    type V = AppErrorView;

    open spec fn view(&self) -> AppErrorView {
        match self {
            AppError::CommandFailed { code, output } => AppErrorView::CommandFailed {
                code: *code,
                output: output@,
            },
            AppError::Generic(m) => AppErrorView::Generic(m@),
        }
    }
}

impl AppError {
    /// A generic error carrying a copy of `msg`.
    pub fn generic(msg: &str) -> (r: AppError)
        ensures
            r@ == AppErrorView::Generic(msg@),
    {
        AppError::Generic(msg.to_owned())
    }
}

} // verus!
