pub mod migrar;
pub mod migrar_date;
pub mod migrar_size_date;
