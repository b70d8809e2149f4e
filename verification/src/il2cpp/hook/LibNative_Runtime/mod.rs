pub mod Sqlite3;
