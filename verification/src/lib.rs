//! Florería: the rules of a flower shop kept by its owner — its products,
//! its customers and the sales between them.
//!
//! - `clave`: account keys.
//! - `modelo`: the shop, its products and customers, and their values.
//! - `reglas`: what each instruction does, as a function on values.
//! - `programa`: the instructions themselves.
//! - `leyes`: laws that relate the instructions.

pub mod clave;
pub mod leyes;
pub mod modelo;
pub mod programa;
pub mod reglas;

pub use clave::Pubkey;
pub use modelo::{Cliente, Errores, Floreria, Producto, MAX_CLIENTES, MAX_NOMBRE, MAX_PRODUCTOS};
pub use programa::{
    actualizar_precio, actualizar_stock, agregar_producto, alterar_producto, crear_floreria,
    eliminar_producto, leer_clientes, leer_productos, registrar_cliente, registrar_venta,
};
pub use reglas::Venta;
