pub mod console;
pub mod output;
pub mod output_intent;
pub mod spinner;
pub mod spinner_intent;
pub mod spinner_state;
pub mod streamlets;
pub mod text;
pub mod typout;
pub mod verbosity;
pub mod worker;

pub use output::{Output, Paint};
pub use output_intent::OutputIntent;
pub use spinner::Spinner;
pub use spinner_intent::SpinnerIntent;
pub use spinner_state::SpinnerState;
pub use typout::{Dispatch, Typout};
pub use verbosity::Verbosity;
pub use worker::SpinnerWorker;
