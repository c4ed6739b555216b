//! Static content of a tournament information site: the fixed tournament
//! records, the values bound into each page, and the response that a page
//! render turns into.

pub mod calendar;
pub mod models;
pub mod pages;

pub use calendar::CalendarDate;
pub use models::{Group, GroupTeam, RoundSchedule, Tournament};
pub use pages::{
    ApiDescriptor, HomeTemplate, PageResponse, TournamentTemplate, WorldCupInfoTemplate,
    join_texts, page_response,
};
