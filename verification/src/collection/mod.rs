pub mod tracking_set;
