pub mod load;
