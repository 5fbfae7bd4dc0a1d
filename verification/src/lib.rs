//! The rules of a tray utility that shows in which country the machine's
//! public address lies: the table from country code to flag, the chain of
//! lookup endpoints with its fallback, and the text under the tray icon.
//!
//! Nothing here touches the network or the desktop. A resolution is a short
//! exchange: `resolver::first_step` names the first request, the caller sends
//! it and hands the reply to `resolver::next_step`, which names the next
//! request or ends with a `CountryInfo`. It always ends with one: where no
//! endpoint names a country, with the unknown country under the globe.

pub mod country;
pub mod endpoint;
pub mod flag;
pub mod resolver;
pub mod text;
pub mod tray;

pub use country::{country_from_response, CountryInfo, IpApiResponse};
pub use endpoint::{lookup_endpoint, response_shape, LookupEndpoint, ResponseShape, ENDPOINT_COUNT};
pub use flag::get_flag_emoji;
pub use resolver::{attempt_outcome, first_step, next_step, Reply, Step, Unavailable};
pub use tray::{tooltip_text, window_action, MouseButton, MouseButtonState, TrayEvent, WindowAction};
