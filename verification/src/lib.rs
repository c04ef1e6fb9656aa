pub mod text;
pub mod order;
pub mod mcp_engine;
pub mod csv_table;
pub mod stations;
pub mod forecast;
pub mod cams;
pub mod laws;
pub mod table_laws;
