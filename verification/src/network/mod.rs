pub mod access_point;
