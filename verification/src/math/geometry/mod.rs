pub mod pose2d;
pub mod quaternion;
pub mod rotation3d;
pub mod translation2d;
