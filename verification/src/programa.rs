//! The instructions of the shop's program.
use vstd::prelude::*;

use crate::clave::Pubkey;
use crate::modelo::{
    longitud_utf8, nombres_clientes, nombres_productos, primera, primera_desde, vista_clientes,
    vista_productos, Cliente, ClienteV, Errores, Floreria, Producto, ProductoV, MAX_CLIENTES,
    MAX_NOMBRE, MAX_PRODUCTOS,
};
use crate::reglas::{
    actualizar_precio_spec, actualizar_stock_spec, agregar_producto_spec, alterar_producto_spec,
    crear_floreria_spec, eliminar_producto_spec, registrar_cliente_spec, registrar_venta_spec,
    Venta,
};

verus! {

/// Position of the first product named `nombre`.
fn posicion_producto(productos: &Vec<Producto>, nombre: &String) -> (r: Option<usize>)
    ensures
        match r {
            Some(i) => i < productos.len() && primera(nombres_productos(vista_productos(productos@)), nombre@)
                == Some(i as int),
            None => primera(nombres_productos(vista_productos(productos@)), nombre@) is None,
        },
{
    let ghost nombres = nombres_productos(vista_productos(productos@));
    let mut i: usize = 0;
    while i < productos.len()
        invariant
            i <= productos.len(),
            nombres.len() == productos.len(),
            nombres == nombres_productos(vista_productos(productos@)),
            primera(nombres, nombre@) == primera_desde(nombres, nombre@, i as int),
        decreases productos.len() - i,
    {
        assert(nombres[i as int] == productos@[i as int].nombre@);
        if productos[i].nombre == *nombre {
            return Some(i);
        }
        i = i + 1;
    }
    None
}

/// Position of the first customer named `nombre`.
fn posicion_cliente(clientes: &Vec<Cliente>, nombre: &String) -> (r: Option<usize>)
    ensures
        match r {
            Some(i) => i < clientes.len() && primera(nombres_clientes(vista_clientes(clientes@)), nombre@)
                == Some(i as int),
            None => primera(nombres_clientes(vista_clientes(clientes@)), nombre@) is None,
        },
{
    let ghost nombres = nombres_clientes(vista_clientes(clientes@));
    let mut i: usize = 0;
    while i < clientes.len()
        invariant
            i <= clientes.len(),
            nombres.len() == clientes.len(),
            nombres == nombres_clientes(vista_clientes(clientes@)),
            primera(nombres, nombre@) == primera_desde(nombres, nombre@, i as int),
        decreases clientes.len() - i,
    {
        assert(nombres[i as int] == clientes@[i as int].nombre@);
        if clientes[i].nombre == *nombre {
            return Some(i);
        }
        i = i + 1;
    }
    None
}

/// Length of a name in UTF-8 bytes.
fn longitud_bytes(s: &String) -> (n: usize)
    ensures
        n == longitud_utf8(s@),
{
    s.as_str().as_bytes().len()
}

/// Creates the shop of `owner`, empty, refusing a name longer than `MAX_NOMBRE` bytes.
pub fn crear_floreria(owner: Pubkey, nombre: String) -> (r: Result<Floreria, Errores>)
    ensures
        match crear_floreria_spec(owner, nombre@) {
            Ok(nueva) => r matches Ok(f) && f@ == nueva,
            Err(e) => r == Err::<Floreria, Errores>(e),
        },
        r matches Ok(f) ==> f@.es_valida(),
{
    if longitud_bytes(&nombre) > MAX_NOMBRE {
        return Err(Errores::NombreMuyLargo);
    }
    let f = Floreria { owner, nombre, productos: Vec::new(), clientes: Vec::new() };
    assert(f@.productos =~= Seq::empty());
    assert(f@.clientes =~= Seq::empty());
    Ok(f)
}

/// Adds an available product, when the signer owns the shop, the name fits,
/// the shop has room and the price is not zero (checked in that order).
pub fn agregar_producto(
    floreria: &mut Floreria,
    firmante: &Pubkey,
    nombre: String,
    precio: u64,
    stock: u32,
) -> (r: Result<(), Errores>)
    ensures
        match agregar_producto_spec(old(floreria)@, *firmante, nombre@, precio, stock) {
            Ok(nueva) => r is Ok && final(floreria)@ == nueva,
            Err(e) => r == Err::<(), Errores>(e) && *final(floreria) == *old(floreria),
        },
        old(floreria).owner != *firmante ==> r == Err::<(), Errores>(Errores::NoEresOwner),
        old(floreria)@.es_valida() ==> final(floreria)@.es_valida(),
{
    if !floreria.owner.es_igual(firmante) {
        return Err(Errores::NoEresOwner);
    }
    if longitud_bytes(&nombre) > MAX_NOMBRE {
        return Err(Errores::NombreMuyLargo);
    }
    if floreria.productos.len() >= MAX_PRODUCTOS {
        return Err(Errores::CapacidadDeProductosLlena);
    }
    if precio == 0 {
        return Err(Errores::PrecioInvalido);
    }
    let ghost antes = floreria@;
    let p = Producto { nombre, precio, stock, disponible: true };
    floreria.productos.push(p);
    assert(floreria@.productos =~= antes.productos.push(p@));
    Ok(())
}

/// Removes the first product with that name.
pub fn eliminar_producto(floreria: &mut Floreria, firmante: &Pubkey, nombre: String) -> (r: Result<
    (),
    Errores,
>)
    ensures
        match eliminar_producto_spec(old(floreria)@, *firmante, nombre@) {
            Ok(nueva) => r is Ok && final(floreria)@ == nueva,
            Err(e) => r == Err::<(), Errores>(e) && *final(floreria) == *old(floreria),
        },
        old(floreria).owner != *firmante ==> r == Err::<(), Errores>(Errores::NoEresOwner),
        old(floreria)@.es_valida() ==> final(floreria)@.es_valida(),
{
    if !floreria.owner.es_igual(firmante) {
        return Err(Errores::NoEresOwner);
    }
    match posicion_producto(&floreria.productos, &nombre) {
        Some(idx) => {
            let ghost antes = floreria@;
            floreria.productos.remove(idx);
            assert(floreria@.productos =~= antes.productos.remove(idx as int));
            Ok(())
        },
        None => Err(Errores::ProductoNoExiste),
    }
}

/// Flips whether the first product with that name is available, and gives the new value.
pub fn alterar_producto(floreria: &mut Floreria, firmante: &Pubkey, nombre: String) -> (r: Result<
    bool,
    Errores,
>)
    ensures
        match alterar_producto_spec(old(floreria)@, *firmante, nombre@) {
            Ok((nueva, disponible)) => r == Ok::<bool, Errores>(disponible) && final(floreria)@
                == nueva,
            Err(e) => r == Err::<bool, Errores>(e) && *final(floreria) == *old(floreria),
        },
        old(floreria).owner != *firmante ==> r == Err::<bool, Errores>(Errores::NoEresOwner),
        old(floreria)@.es_valida() ==> final(floreria)@.es_valida(),
{
    if !floreria.owner.es_igual(firmante) {
        return Err(Errores::NoEresOwner);
    }
    match posicion_producto(&floreria.productos, &nombre) {
        Some(idx) => {
            let ghost antes = floreria@;
            let nuevo = !floreria.productos[idx].disponible;
            floreria.productos[idx].disponible = nuevo;
            assert(floreria@.productos =~= antes.productos.update(
                idx as int,
                ProductoV { disponible: nuevo, ..antes.productos[idx as int] },
            ));
            Ok(nuevo)
        },
        None => Err(Errores::ProductoNoExiste),
    }
}

/// Sets the price of the first product with that name; a price of zero is refused.
pub fn actualizar_precio(
    floreria: &mut Floreria,
    firmante: &Pubkey,
    nombre: String,
    nuevo_precio: u64,
) -> (r: Result<(), Errores>)
    ensures
        match actualizar_precio_spec(old(floreria)@, *firmante, nombre@, nuevo_precio) {
            Ok(nueva) => r is Ok && final(floreria)@ == nueva,
            Err(e) => r == Err::<(), Errores>(e) && *final(floreria) == *old(floreria),
        },
        old(floreria).owner != *firmante ==> r == Err::<(), Errores>(Errores::NoEresOwner),
        old(floreria)@.es_valida() ==> final(floreria)@.es_valida(),
{
    if !floreria.owner.es_igual(firmante) {
        return Err(Errores::NoEresOwner);
    }
    if nuevo_precio == 0 {
        return Err(Errores::PrecioInvalido);
    }
    match posicion_producto(&floreria.productos, &nombre) {
        Some(idx) => {
            let ghost antes = floreria@;
            floreria.productos[idx].precio = nuevo_precio;
            assert(floreria@.productos =~= antes.productos.update(
                idx as int,
                ProductoV { precio: nuevo_precio, ..antes.productos[idx as int] },
            ));
            Ok(())
        },
        None => Err(Errores::ProductoNoExiste),
    }
}

/// Sets the stock of the first product with that name.
pub fn actualizar_stock(
    floreria: &mut Floreria,
    firmante: &Pubkey,
    nombre: String,
    nuevo_stock: u32,
) -> (r: Result<(), Errores>)
    ensures
        match actualizar_stock_spec(old(floreria)@, *firmante, nombre@, nuevo_stock) {
            Ok(nueva) => r is Ok && final(floreria)@ == nueva,
            Err(e) => r == Err::<(), Errores>(e) && *final(floreria) == *old(floreria),
        },
        old(floreria).owner != *firmante ==> r == Err::<(), Errores>(Errores::NoEresOwner),
        old(floreria)@.es_valida() ==> final(floreria)@.es_valida(),
{
    if !floreria.owner.es_igual(firmante) {
        return Err(Errores::NoEresOwner);
    }
    match posicion_producto(&floreria.productos, &nombre) {
        Some(idx) => {
            let ghost antes = floreria@;
            floreria.productos[idx].stock = nuevo_stock;
            assert(floreria@.productos =~= antes.productos.update(
                idx as int,
                ProductoV { stock: nuevo_stock, ..antes.productos[idx as int] },
            ));
            Ok(())
        },
        None => Err(Errores::ProductoNoExiste),
    }
}

/// Registers a customer with no purchases, when the signer owns the shop, the
/// name fits and the shop has room (checked in that order).
pub fn registrar_cliente(floreria: &mut Floreria, firmante: &Pubkey, nombre: String) -> (r: Result<
    (),
    Errores,
>)
    ensures
        match registrar_cliente_spec(old(floreria)@, *firmante, nombre@) {
            Ok(nueva) => r is Ok && final(floreria)@ == nueva,
            Err(e) => r == Err::<(), Errores>(e) && *final(floreria) == *old(floreria),
        },
        old(floreria).owner != *firmante ==> r == Err::<(), Errores>(Errores::NoEresOwner),
        old(floreria)@.es_valida() ==> final(floreria)@.es_valida(),
{
    if !floreria.owner.es_igual(firmante) {
        return Err(Errores::NoEresOwner);
    }
    if longitud_bytes(&nombre) > MAX_NOMBRE {
        return Err(Errores::NombreMuyLargo);
    }
    if floreria.clientes.len() >= MAX_CLIENTES {
        return Err(Errores::CapacidadDeClientesLlena);
    }
    let ghost antes = floreria@;
    let c = Cliente { nombre, compras: 0, gastado_total: 0 };
    floreria.clientes.push(c);
    assert(floreria@.clientes =~= antes.clientes.push(c@));
    Ok(())
}

/// Sells `cantidad` units of the first product named `producto_nombre` to the
/// first customer named `cliente_nombre`, and reports the unit price and the total.
pub fn registrar_venta(
    floreria: &mut Floreria,
    firmante: &Pubkey,
    cliente_nombre: String,
    producto_nombre: String,
    cantidad: u16,
) -> (r: Result<Venta, Errores>)
    ensures
        match registrar_venta_spec(
            old(floreria)@,
            *firmante,
            cliente_nombre@,
            producto_nombre@,
            cantidad,
        ) {
            Ok((nueva, venta)) => r == Ok::<Venta, Errores>(venta) && final(floreria)@ == nueva,
            Err(e) => r == Err::<Venta, Errores>(e) && *final(floreria) == *old(floreria),
        },
        old(floreria).owner != *firmante ==> r == Err::<Venta, Errores>(Errores::NoEresOwner),
        old(floreria)@.es_valida() ==> final(floreria)@.es_valida(),
{
    if !floreria.owner.es_igual(firmante) {
        return Err(Errores::NoEresOwner);
    }
    if cantidad == 0 {
        return Err(Errores::CantidadInvalida);
    }
    let cliente_idx = match posicion_cliente(&floreria.clientes, &cliente_nombre) {
        Some(i) => i,
        None => return Err(Errores::ClienteNoExiste),
    };
    let producto_idx = match posicion_producto(&floreria.productos, &producto_nombre) {
        Some(i) => i,
        None => return Err(Errores::ProductoNoExiste),
    };
    let precio_unitario: u64 = {
        let p_ref = &floreria.productos[producto_idx];
        if !p_ref.disponible {
            return Err(Errores::ProductoNoExiste);
        }
        if p_ref.stock < cantidad as u32 {
            return Err(Errores::StockInsuficiente);
        }
        p_ref.precio
    };
    let total_u128: u128 = match (precio_unitario as u128).checked_mul(cantidad as u128) {
        Some(t) => t,
        None => return Err(Errores::MontoOverflow),
    };
    if total_u128 > u64::MAX as u128 {
        return Err(Errores::MontoOverflow);
    }
    let total: u64 = total_u128 as u64;
    let nuevo_stock: u32 = match floreria.productos[producto_idx].stock.checked_sub(
        cantidad as u32,
    ) {
        Some(s) => s,
        None => return Err(Errores::StockInsuficiente),
    };
    let ghost antes = floreria@;
    floreria.productos[producto_idx].stock = nuevo_stock;
    let compras: u32 = floreria.clientes[cliente_idx].compras.saturating_add(1);
    let gastado: u64 = floreria.clientes[cliente_idx].gastado_total.saturating_add(total);
    floreria.clientes[cliente_idx].compras = compras;
    floreria.clientes[cliente_idx].gastado_total = gastado;
    assert(floreria@.productos =~= antes.productos.update(
        producto_idx as int,
        ProductoV { stock: nuevo_stock, ..antes.productos[producto_idx as int] },
    ));
    assert(floreria@.clientes =~= antes.clientes.update(
        cliente_idx as int,
        ClienteV { compras, gastado_total: gastado, ..antes.clientes[cliente_idx as int] },
    ));
    Ok(Venta { precio_unitario, total })
}

/// The number of products in the shop.
pub fn leer_productos(floreria: &Floreria) -> (n: usize)
    ensures
        n == floreria@.productos.len(),
{
    floreria.productos.len()
}

/// The number of customers of the shop.
pub fn leer_clientes(floreria: &Floreria) -> (n: usize)
    ensures
        n == floreria@.clientes.len(),
{
    floreria.clientes.len()
}

} // verus!
