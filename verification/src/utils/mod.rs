/// the broker that ships with the library
pub mod default_broker;
/// the supervisor that ships with the library
pub mod default_supervisor;
/// the concurrent maps of the library, with what is assumed of them
pub mod table;
