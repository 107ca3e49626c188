//! Read-only exploration of the X.509 certificates below a directory: a
//! scanner that turns files into certificate records, the records' derived
//! fields, and the interactive session that lists them.

pub mod decimal;
pub mod decoder;
pub mod path;
pub mod pki_explorer;
pub mod scan;
pub mod scanner;
pub mod selection;
pub mod text;
pub mod timestamp;
pub mod x509;
pub mod x509_tui;
