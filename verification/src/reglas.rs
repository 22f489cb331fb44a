//! What each instruction does to a shop, as a function on values.
use vstd::prelude::*;

use crate::clave::Pubkey;
use crate::modelo::{
    nombre_valido, nombres_clientes, nombres_productos, primera, ClienteV, Errores, FloreriaV,
    ProductoV, MAX_CLIENTES, MAX_PRODUCTOS,
};

verus! {

/// What a sale reports: the unit price it was made at and the amount charged.
#[derive(Clone, Copy, Debug, PartialEq, Eq, Structural)]
pub struct Venta {
    pub precio_unitario: u64,
    pub total: u64,
}

/// `a + b`, or `u32::MAX` where the sum does not fit.
pub open spec fn suma_saturada_u32(a: u32, b: u32) -> u32 {
    if a + b > u32::MAX {
        u32::MAX
    } else {
        (a + b) as u32
    }
}

/// `a + b`, or `u64::MAX` where the sum does not fit.
pub open spec fn suma_saturada_u64(a: u64, b: u64) -> u64 {
    if a + b > u64::MAX {
        u64::MAX
    } else {
        (a + b) as u64
    }
}

/// A new shop: refused when its name is too long, else empty and owned by `owner`.
pub open spec fn crear_floreria_spec(owner: Pubkey, nombre: Seq<char>) -> Result<FloreriaV, Errores> {
    if !nombre_valido(nombre) {
        Err(Errores::NombreMuyLargo)
    } else {
        Ok(FloreriaV { owner, nombre, productos: Seq::empty(), clientes: Seq::empty() })
    }
}

/// Adds an available product at the end of the list.
pub open spec fn agregar_producto_spec(
    f: FloreriaV,
    firmante: Pubkey,
    nombre: Seq<char>,
    precio: u64,
    stock: u32,
) -> Result<FloreriaV, Errores> {
    if f.owner != firmante {
        Err(Errores::NoEresOwner)
    } else if !nombre_valido(nombre) {
        Err(Errores::NombreMuyLargo)
    } else if f.productos.len() >= MAX_PRODUCTOS {
        Err(Errores::CapacidadDeProductosLlena)
    } else if precio == 0 {
        Err(Errores::PrecioInvalido)
    } else {
        Ok(
            FloreriaV {
                productos: f.productos.push(ProductoV { nombre, precio, stock, disponible: true }),
                ..f
            },
        )
    }
}

/// Removes the first product with that name.
pub open spec fn eliminar_producto_spec(f: FloreriaV, firmante: Pubkey, nombre: Seq<char>) -> Result<
    FloreriaV,
    Errores,
> {
    if f.owner != firmante {
        Err(Errores::NoEresOwner)
    } else {
        match primera(nombres_productos(f.productos), nombre) {
            Some(i) => Ok(FloreriaV { productos: f.productos.remove(i), ..f }),
            None => Err(Errores::ProductoNoExiste),
        }
    }
}

/// Flips whether the first product with that name is available; gives the new value.
pub open spec fn alterar_producto_spec(f: FloreriaV, firmante: Pubkey, nombre: Seq<char>) -> Result<
    (FloreriaV, bool),
    Errores,
> {
    if f.owner != firmante {
        Err(Errores::NoEresOwner)
    } else {
        match primera(nombres_productos(f.productos), nombre) {
            Some(i) => {
                let nuevo = !f.productos[i].disponible;
                Ok(
                    (
                        FloreriaV {
                            productos: f.productos.update(
                                i,
                                ProductoV { disponible: nuevo, ..f.productos[i] },
                            ),
                            ..f
                        },
                        nuevo,
                    ),
                )
            },
            None => Err(Errores::ProductoNoExiste),
        }
    }
}

/// Sets the price of the first product with that name.
pub open spec fn actualizar_precio_spec(
    f: FloreriaV,
    firmante: Pubkey,
    nombre: Seq<char>,
    nuevo_precio: u64,
) -> Result<FloreriaV, Errores> {
    if f.owner != firmante {
        Err(Errores::NoEresOwner)
    } else if nuevo_precio == 0 {
        Err(Errores::PrecioInvalido)
    } else {
        match primera(nombres_productos(f.productos), nombre) {
            Some(i) => Ok(
                FloreriaV {
                    productos: f.productos.update(
                        i,
                        ProductoV { precio: nuevo_precio, ..f.productos[i] },
                    ),
                    ..f
                },
            ),
            None => Err(Errores::ProductoNoExiste),
        }
    }
}

/// Sets the stock of the first product with that name.
pub open spec fn actualizar_stock_spec(
    f: FloreriaV,
    firmante: Pubkey,
    nombre: Seq<char>,
    nuevo_stock: u32,
) -> Result<FloreriaV, Errores> {
    if f.owner != firmante {
        Err(Errores::NoEresOwner)
    } else {
        match primera(nombres_productos(f.productos), nombre) {
            Some(i) => Ok(
                FloreriaV {
                    productos: f.productos.update(
                        i,
                        ProductoV { stock: nuevo_stock, ..f.productos[i] },
                    ),
                    ..f
                },
            ),
            None => Err(Errores::ProductoNoExiste),
        }
    }
}

/// Adds a customer with no purchases at the end of the list.
pub open spec fn registrar_cliente_spec(f: FloreriaV, firmante: Pubkey, nombre: Seq<char>) -> Result<
    FloreriaV,
    Errores,
> {
    if f.owner != firmante {
        Err(Errores::NoEresOwner)
    } else if !nombre_valido(nombre) {
        Err(Errores::NombreMuyLargo)
    } else if f.clientes.len() >= MAX_CLIENTES {
        Err(Errores::CapacidadDeClientesLlena)
    } else {
        Ok(
            FloreriaV {
                clientes: f.clientes.push(ClienteV { nombre, compras: 0, gastado_total: 0 }),
                ..f
            },
        )
    }
}

/// Sells `cantidad` units of the first product named `producto` to the first
/// customer named `cliente`: the product's stock goes down by `cantidad`, the
/// customer's purchases go up by one and what they spent by the total, both
/// saturating.
pub open spec fn registrar_venta_spec(
    f: FloreriaV,
    firmante: Pubkey,
    cliente: Seq<char>,
    producto: Seq<char>,
    cantidad: u16,
) -> Result<(FloreriaV, Venta), Errores> {
    if f.owner != firmante {
        Err(Errores::NoEresOwner)
    } else if cantidad == 0 {
        Err(Errores::CantidadInvalida)
    } else {
        match primera(nombres_clientes(f.clientes), cliente) {
            None => Err(Errores::ClienteNoExiste),
            Some(ci) => match primera(nombres_productos(f.productos), producto) {
                None => Err(Errores::ProductoNoExiste),
                Some(pi) => {
                    let p = f.productos[pi];
                    let c = f.clientes[ci];
                    let total = p.precio * cantidad;
                    if !p.disponible {
                        Err(Errores::ProductoNoExiste)
                    } else if p.stock < cantidad {
                        Err(Errores::StockInsuficiente)
                    } else if total > u64::MAX {
                        Err(Errores::MontoOverflow)
                    } else {
                        Ok(
                            (
                                FloreriaV {
                                    productos: f.productos.update(
                                        pi,
                                        ProductoV { stock: (p.stock - cantidad) as u32, ..p },
                                    ),
                                    clientes: f.clientes.update(
                                        ci,
                                        ClienteV {
                                            compras: suma_saturada_u32(c.compras, 1),
                                            gastado_total: suma_saturada_u64(
                                                c.gastado_total,
                                                total as u64,
                                            ),
                                            ..c
                                        },
                                    ),
                                    ..f
                                },
                                Venta { precio_unitario: p.precio, total: total as u64 },
                            ),
                        )
                    }
                },
            },
        }
    }
}

} // verus!
