pub mod Query;
