pub mod canny;
