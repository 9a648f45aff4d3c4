pub mod event;
pub mod event_organizer_view;
pub mod inscription;
pub mod user;
