pub mod track_listing;
