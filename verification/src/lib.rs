//! Resolves a Windows release, language and architecture into the download
//! link of its installation image.
//!
//! The crate holds the rules that decide which combinations exist, the
//! scanners that read identifiers and links out of the vendor's pages, and the
//! step function of the resolution itself. It performs no network traffic:
//! a driver sends the requests this crate asks for and hands the replies back.
pub mod arch;
pub mod consumer;
pub mod enterprise;
pub mod entry;
pub mod error;
pub mod evalcenter;
pub mod link;
pub mod number;
pub mod pattern;
pub mod pipeline;
pub mod product;
pub mod request;
pub mod scan;
pub mod session;
pub mod sku;
pub mod text;
pub mod windows;

pub use arch::WindowsArchitecture;
pub use consumer::{ConsumerLanguage, ConsumerRelease};
pub use enterprise::{EnterpriseLanguage, EnterpriseRelease};
pub use entry::{WindowsData, WindowsEntry};
pub use error::RidoError;
pub use pipeline::{Action, Document, Event, Resolution, Stage};
pub use request::{HttpRequest, Method, ResponseFormat};
pub use session::SessionContext;
pub use sku::WindowsSku;
pub use windows::{WindowsLanguage, WindowsRelease};
