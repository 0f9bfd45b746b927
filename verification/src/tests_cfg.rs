pub mod cake;
pub mod fruit;
