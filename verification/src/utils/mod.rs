pub mod tlv;
pub mod text;
pub mod snowflake;
pub mod time;
pub mod token;
pub mod rds_conn;
