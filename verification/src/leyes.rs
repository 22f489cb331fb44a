//! Laws that relate the instructions of the shop.
use vstd::prelude::*;

use crate::clave::Pubkey;
use crate::modelo::{es_primera, lema_es_primera, lema_primera, nombre_valido, MAX_CLIENTES, MAX_PRODUCTOS, nombres_clientes, nombres_productos, primera, FloreriaV, ProductoV};
use crate::reglas::{
    actualizar_precio_spec, actualizar_stock_spec, agregar_producto_spec, alterar_producto_spec,
    crear_floreria_spec, eliminar_producto_spec, registrar_cliente_spec, registrar_venta_spec, suma_saturada_u32,
    suma_saturada_u64, Venta,
};
use crate::Errores;

verus! {

/// Flipping the availability of a product twice gives back the shop as it was,
/// and the second flip reports the opposite of the first.
pub proof fn ley_alterar_dos_veces(f: FloreriaV, firmante: Pubkey, nombre: Seq<char>)
    requires
        alterar_producto_spec(f, firmante, nombre) is Ok,
    ensures
        ({
            let (g, d) = alterar_producto_spec(f, firmante, nombre)->Ok_0;
            alterar_producto_spec(g, firmante, nombre) == Ok::<(FloreriaV, bool), Errores>((f, !d))
        }),
{
    let i = primera(nombres_productos(f.productos), nombre)->Some_0;
    let (g, d) = alterar_producto_spec(f, firmante, nombre)->Ok_0;
    lema_primera(nombres_productos(f.productos), nombre);
    assert(nombres_productos(g.productos) =~= nombres_productos(f.productos));
    assert(g.productos.update(i, ProductoV { disponible: !d, ..g.productos[i] }) =~= f.productos);
}

/// Removing a product by the name it was just added under gives back the shop
/// as it was, when no product had that name before.
pub proof fn ley_agregar_y_eliminar(
    f: FloreriaV,
    firmante: Pubkey,
    nombre: Seq<char>,
    precio: u64,
    stock: u32,
)
    requires
        agregar_producto_spec(f, firmante, nombre, precio, stock) is Ok,
        primera(nombres_productos(f.productos), nombre) is None,
    ensures
        eliminar_producto_spec(
            agregar_producto_spec(f, firmante, nombre, precio, stock)->Ok_0,
            firmante,
            nombre,
        ) == Ok::<FloreriaV, Errores>(f),
{
    let g = agregar_producto_spec(f, firmante, nombre, precio, stock)->Ok_0;
    let n = f.productos.len() as int;
    lema_primera(nombres_productos(f.productos), nombre);
    lema_primera(nombres_productos(g.productos), nombre);
    assert(nombres_productos(g.productos)[n] == nombre);
    assert(forall|j: int|
        0 <= j < n ==> nombres_productos(g.productos)[j] == nombres_productos(f.productos)[j]);
    assert(primera(nombres_productos(g.productos), nombre) == Some(n));
    assert(g.productos.remove(n) =~= f.productos);
}

/// Only the owner changes the shop: every instruction signed by another key is
/// refused with `NoEresOwner`.
pub proof fn ley_solo_el_propietario(
    f: FloreriaV,
    firmante: Pubkey,
    nombre: Seq<char>,
    otro_nombre: Seq<char>,
    precio: u64,
    stock: u32,
    cantidad: u16,
)
    requires
        f.owner != firmante,
    ensures
        agregar_producto_spec(f, firmante, nombre, precio, stock) == Err::<FloreriaV, Errores>(
            Errores::NoEresOwner,
        ),
        eliminar_producto_spec(f, firmante, nombre) == Err::<FloreriaV, Errores>(
            Errores::NoEresOwner,
        ),
        alterar_producto_spec(f, firmante, nombre) is Err,
        alterar_producto_spec(f, firmante, nombre)->Err_0 == Errores::NoEresOwner,
        actualizar_precio_spec(f, firmante, nombre, precio) == Err::<FloreriaV, Errores>(
            Errores::NoEresOwner,
        ),
        actualizar_stock_spec(f, firmante, nombre, stock) == Err::<FloreriaV, Errores>(
            Errores::NoEresOwner,
        ),
        registrar_cliente_spec(f, firmante, nombre) == Err::<FloreriaV, Errores>(
            Errores::NoEresOwner,
        ),
        registrar_venta_spec(f, firmante, nombre, otro_nombre, cantidad) is Err,
        registrar_venta_spec(f, firmante, nombre, otro_nombre, cantidad)->Err_0
            == Errores::NoEresOwner,
{
}

/// No instruction changes who owns the shop or what it is called.
pub proof fn ley_propietario_y_nombre_fijos(
    f: FloreriaV,
    firmante: Pubkey,
    nombre: Seq<char>,
    otro_nombre: Seq<char>,
    precio: u64,
    stock: u32,
    cantidad: u16,
)
    ensures
        agregar_producto_spec(f, firmante, nombre, precio, stock) matches Ok(g) ==> g.owner
            == f.owner && g.nombre == f.nombre,
        eliminar_producto_spec(f, firmante, nombre) matches Ok(g) ==> g.owner == f.owner
            && g.nombre == f.nombre,
        alterar_producto_spec(f, firmante, nombre) matches Ok((g, _)) ==> g.owner == f.owner
            && g.nombre == f.nombre,
        actualizar_precio_spec(f, firmante, nombre, precio) matches Ok(g) ==> g.owner == f.owner
            && g.nombre == f.nombre,
        actualizar_stock_spec(f, firmante, nombre, stock) matches Ok(g) ==> g.owner == f.owner
            && g.nombre == f.nombre,
        registrar_cliente_spec(f, firmante, nombre) matches Ok(g) ==> g.owner == f.owner
            && g.nombre == f.nombre,
        registrar_venta_spec(f, firmante, nombre, otro_nombre, cantidad) matches Ok((g, _))
            ==> g.owner == f.owner && g.nombre == f.nombre,
{
}

/// How many products and customers a shop holds after each accepted
/// instruction: adding a product or a customer counts one more, removing a
/// product one less, and every other instruction keeps both counts.
pub proof fn ley_conteos(
    f: FloreriaV,
    firmante: Pubkey,
    nombre: Seq<char>,
    otro_nombre: Seq<char>,
    precio: u64,
    stock: u32,
    cantidad: u16,
)
    ensures
        agregar_producto_spec(f, firmante, nombre, precio, stock) matches Ok(g) ==> g.productos.len()
            == f.productos.len() + 1 && g.clientes.len() == f.clientes.len(),
        eliminar_producto_spec(f, firmante, nombre) matches Ok(g) ==> g.productos.len() + 1
            == f.productos.len() && g.clientes.len() == f.clientes.len(),
        registrar_cliente_spec(f, firmante, nombre) matches Ok(g) ==> g.clientes.len()
            == f.clientes.len() + 1 && g.productos.len() == f.productos.len(),
        alterar_producto_spec(f, firmante, nombre) matches Ok((g, _)) ==> g.productos.len()
            == f.productos.len() && g.clientes.len() == f.clientes.len(),
        actualizar_precio_spec(f, firmante, nombre, precio) matches Ok(g) ==> g.productos.len()
            == f.productos.len() && g.clientes.len() == f.clientes.len(),
        actualizar_stock_spec(f, firmante, nombre, stock) matches Ok(g) ==> g.productos.len()
            == f.productos.len() && g.clientes.len() == f.clientes.len(),
        registrar_venta_spec(f, firmante, nombre, otro_nombre, cantidad) matches Ok((g, _))
            ==> g.productos.len() == f.productos.len() && g.clientes.len() == f.clientes.len(),
{
    lema_primera(nombres_productos(f.productos), nombre);
    lema_primera(nombres_productos(f.productos), otro_nombre);
    lema_primera(nombres_clientes(f.clientes), nombre);
}

/// After a price or a stock is set, the product found under that name holds
/// what was written, and no other product changes.
pub proof fn ley_lectura_de_lo_escrito(
    f: FloreriaV,
    firmante: Pubkey,
    nombre: Seq<char>,
    precio: u64,
    stock: u32,
)
    ensures
        actualizar_precio_spec(f, firmante, nombre, precio) matches Ok(g) ==> ({
            let i = primera(nombres_productos(g.productos), nombre)->Some_0;
            &&& primera(nombres_productos(g.productos), nombre) is Some
            &&& g.productos[i].precio == precio
            &&& forall|j: int| 0 <= j < g.productos.len() && j != i ==> g.productos[j] == f.productos[j]
        }),
        actualizar_stock_spec(f, firmante, nombre, stock) matches Ok(g) ==> ({
            let i = primera(nombres_productos(g.productos), nombre)->Some_0;
            &&& primera(nombres_productos(g.productos), nombre) is Some
            &&& g.productos[i].stock == stock
            &&& forall|j: int| 0 <= j < g.productos.len() && j != i ==> g.productos[j] == f.productos[j]
        }),
{
    lema_primera(nombres_productos(f.productos), nombre);
    if let Ok(g) = actualizar_precio_spec(f, firmante, nombre, precio) {
        assert(nombres_productos(g.productos) =~= nombres_productos(f.productos));
    }
    if let Ok(g) = actualizar_stock_spec(f, firmante, nombre, stock) {
        assert(nombres_productos(g.productos) =~= nombres_productos(f.productos));
    }
}

/// An accepted sale: the product sold was available with enough stock; its
/// stock goes down by exactly the quantity sold; the total is the unit price
/// times the quantity; the customer counts one more purchase and the total
/// more spent (both saturating); nothing else in the shop changes.
pub proof fn ley_venta(
    f: FloreriaV,
    firmante: Pubkey,
    cliente: Seq<char>,
    producto: Seq<char>,
    cantidad: u16,
)
    requires
        registrar_venta_spec(f, firmante, cliente, producto, cantidad) is Ok,
    ensures
        ({
            let (g, v) = registrar_venta_spec(f, firmante, cliente, producto, cantidad)->Ok_0;
            let ci = primera(nombres_clientes(f.clientes), cliente)->Some_0;
            let pi = primera(nombres_productos(f.productos), producto)->Some_0;
            &&& 0 <= ci < f.clientes.len() && f.clientes[ci].nombre == cliente
            &&& 0 <= pi < f.productos.len() && f.productos[pi].nombre == producto
            &&& f.productos[pi].disponible
            &&& g.productos[pi].stock + cantidad == f.productos[pi].stock
            &&& g.productos[pi].nombre == f.productos[pi].nombre
            &&& g.productos[pi].precio == f.productos[pi].precio
            &&& g.productos[pi].disponible == f.productos[pi].disponible
            &&& g.clientes[ci].nombre == f.clientes[ci].nombre
            &&& v.precio_unitario == f.productos[pi].precio
            &&& v.total == v.precio_unitario * cantidad
            &&& g.clientes[ci].compras == suma_saturada_u32(f.clientes[ci].compras, 1)
            &&& g.clientes[ci].gastado_total == suma_saturada_u64(f.clientes[ci].gastado_total, v.total)
            &&& g.productos.len() == f.productos.len() && g.clientes.len() == f.clientes.len()
            &&& forall|j: int| 0 <= j < g.productos.len() && j != pi ==> g.productos[j] == f.productos[j]
            &&& forall|j: int| 0 <= j < g.clientes.len() && j != ci ==> g.clientes[j] == f.clientes[j]
            &&& g.owner == f.owner && g.nombre == f.nombre
        }),
{
    lema_primera(nombres_clientes(f.clientes), cliente);
    lema_primera(nombres_productos(f.productos), producto);
}

/// Every accepted instruction keeps a valid shop valid: names within
/// `MAX_NOMBRE` bytes, at most `MAX_PRODUCTOS` products and `MAX_CLIENTES`
/// customers, and no product priced at zero. A new shop is valid.
pub proof fn ley_invariante(
    f: FloreriaV,
    firmante: Pubkey,
    nombre: Seq<char>,
    otro_nombre: Seq<char>,
    precio: u64,
    stock: u32,
    cantidad: u16,
)
    requires
        f.es_valida(),
    ensures
        crear_floreria_spec(firmante, nombre) matches Ok(g) ==> g.es_valida(),
        agregar_producto_spec(f, firmante, nombre, precio, stock) matches Ok(g) ==> g.es_valida(),
        eliminar_producto_spec(f, firmante, nombre) matches Ok(g) ==> g.es_valida(),
        alterar_producto_spec(f, firmante, nombre) matches Ok((g, _)) ==> g.es_valida(),
        actualizar_precio_spec(f, firmante, nombre, precio) matches Ok(g) ==> g.es_valida(),
        actualizar_stock_spec(f, firmante, nombre, stock) matches Ok(g) ==> g.es_valida(),
        registrar_cliente_spec(f, firmante, nombre) matches Ok(g) ==> g.es_valida(),
        registrar_venta_spec(f, firmante, nombre, otro_nombre, cantidad) matches Ok((g, _))
            ==> g.es_valida(),
{
    lema_primera(nombres_productos(f.productos), nombre);
    lema_primera(nombres_productos(f.productos), otro_nombre);
    lema_primera(nombres_clientes(f.clientes), nombre);
}

/// Instructions that name a product are accepted, for the owner, exactly when
/// some product has that name — whatever its availability, price or stock —
/// and, for a new price, when that price is not zero. For the owner, a name
/// that no product has is answered with `ProductoNoExiste`.
pub proof fn ley_aceptacion_por_nombre(
    f: FloreriaV,
    firmante: Pubkey,
    nombre: Seq<char>,
    precio: u64,
    stock: u32,
)
    ensures
        eliminar_producto_spec(f, firmante, nombre) is Ok <==> (f.owner == firmante && exists|j: int|
            0 <= j < f.productos.len() && #[trigger] f.productos[j].nombre == nombre),
        alterar_producto_spec(f, firmante, nombre) is Ok <==> (f.owner == firmante && exists|j: int|
            0 <= j < f.productos.len() && #[trigger] f.productos[j].nombre == nombre),
        actualizar_precio_spec(f, firmante, nombre, precio) is Ok <==> (f.owner == firmante
            && precio != 0 && exists|j: int|
            0 <= j < f.productos.len() && #[trigger] f.productos[j].nombre == nombre),
        actualizar_stock_spec(f, firmante, nombre, stock) is Ok <==> (f.owner == firmante
            && exists|j: int| 0 <= j < f.productos.len() && #[trigger] f.productos[j].nombre == nombre),
        (f.owner == firmante && forall|j: int|
            0 <= j < f.productos.len() ==> #[trigger] f.productos[j].nombre != nombre) ==> {
            &&& eliminar_producto_spec(f, firmante, nombre) == Err::<FloreriaV, Errores>(
                Errores::ProductoNoExiste,
            )
            &&& alterar_producto_spec(f, firmante, nombre) is Err
            &&& alterar_producto_spec(f, firmante, nombre)->Err_0 == Errores::ProductoNoExiste
            &&& actualizar_stock_spec(f, firmante, nombre, stock) == Err::<FloreriaV, Errores>(
                Errores::ProductoNoExiste,
            )
            &&& precio != 0 ==> actualizar_precio_spec(f, firmante, nombre, precio) == Err::<
                FloreriaV,
                Errores,
            >(Errores::ProductoNoExiste)
        },
{
    let nombres = nombres_productos(f.productos);
    lema_primera(nombres, nombre);
    if let Some(i) = primera(nombres, nombre) {
        assert(f.productos[i].nombre == nombre);
    }
    assert((exists|j: int| 0 <= j < f.productos.len() && #[trigger] f.productos[j].nombre == nombre)
        ==> primera(nombres, nombre) is Some) by {
        if exists|j: int| 0 <= j < f.productos.len() && #[trigger] f.productos[j].nombre == nombre {
            let j = choose|j: int| 0 <= j < f.productos.len() && #[trigger] f.productos[j].nombre == nombre;
            assert(nombres[j] == nombre);
        }
    }
}

/// Removing a product takes out the first product with that name and keeps
/// the others in their order; the customers, the owner and the shop's name
/// do not change.
pub proof fn ley_eliminar_producto(f: FloreriaV, firmante: Pubkey, nombre: Seq<char>, i: int)
    requires
        es_primera(nombres_productos(f.productos), nombre, i),
    ensures
        eliminar_producto_spec(f, firmante, nombre) matches Ok(g) ==> {
            &&& g.productos.len() + 1 == f.productos.len()
            &&& forall|j: int| 0 <= j < i ==> #[trigger] g.productos[j] == f.productos[j]
            &&& forall|j: int| i <= j < g.productos.len() ==> #[trigger] g.productos[j] == f.productos[j + 1]
            &&& g.clientes == f.clientes
            &&& g.owner == f.owner
            &&& g.nombre == f.nombre
        },
{
    lema_es_primera(nombres_productos(f.productos), nombre, i);
}

/// Flipping availability changes only the availability of the first product
/// with that name, to the opposite of what it was, and reports the new value;
/// every other product, the customers, the owner and the shop's name stay.
pub proof fn ley_alterar_producto(f: FloreriaV, firmante: Pubkey, nombre: Seq<char>, i: int)
    requires
        es_primera(nombres_productos(f.productos), nombre, i),
    ensures
        alterar_producto_spec(f, firmante, nombre) matches Ok((g, d)) ==> {
            &&& d == !f.productos[i].disponible
            &&& g.productos.len() == f.productos.len()
            &&& g.productos[i].disponible == d
            &&& g.productos[i].nombre == f.productos[i].nombre
            &&& g.productos[i].precio == f.productos[i].precio
            &&& g.productos[i].stock == f.productos[i].stock
            &&& forall|j: int|
                0 <= j < g.productos.len() && j != i ==> #[trigger] g.productos[j] == f.productos[j]
            &&& g.clientes == f.clientes
            &&& g.owner == f.owner
            &&& g.nombre == f.nombre
        },
{
    lema_es_primera(nombres_productos(f.productos), nombre, i);
}

/// Setting a price changes only the price of the first product with that
/// name; its name, stock and availability, every other product, the
/// customers, the owner and the shop's name stay.
pub proof fn ley_actualizar_precio(
    f: FloreriaV,
    firmante: Pubkey,
    nombre: Seq<char>,
    nuevo_precio: u64,
    i: int,
)
    requires
        es_primera(nombres_productos(f.productos), nombre, i),
    ensures
        actualizar_precio_spec(f, firmante, nombre, nuevo_precio) matches Ok(g) ==> {
            &&& g.productos.len() == f.productos.len()
            &&& g.productos[i].precio == nuevo_precio
            &&& g.productos[i].nombre == f.productos[i].nombre
            &&& g.productos[i].stock == f.productos[i].stock
            &&& g.productos[i].disponible == f.productos[i].disponible
            &&& forall|j: int|
                0 <= j < g.productos.len() && j != i ==> #[trigger] g.productos[j] == f.productos[j]
            &&& g.clientes == f.clientes
            &&& g.owner == f.owner
            &&& g.nombre == f.nombre
        },
{
    lema_es_primera(nombres_productos(f.productos), nombre, i);
}

/// Setting a stock changes only the stock of the first product with that
/// name; its name, price and availability, every other product, the
/// customers, the owner and the shop's name stay.
pub proof fn ley_actualizar_stock(
    f: FloreriaV,
    firmante: Pubkey,
    nombre: Seq<char>,
    nuevo_stock: u32,
    i: int,
)
    requires
        es_primera(nombres_productos(f.productos), nombre, i),
    ensures
        actualizar_stock_spec(f, firmante, nombre, nuevo_stock) matches Ok(g) ==> {
            &&& g.productos.len() == f.productos.len()
            &&& g.productos[i].stock == nuevo_stock
            &&& g.productos[i].nombre == f.productos[i].nombre
            &&& g.productos[i].precio == f.productos[i].precio
            &&& g.productos[i].disponible == f.productos[i].disponible
            &&& forall|j: int|
                0 <= j < g.productos.len() && j != i ==> #[trigger] g.productos[j] == f.productos[j]
            &&& g.clientes == f.clientes
            &&& g.owner == f.owner
            &&& g.nombre == f.nombre
        },
{
    lema_es_primera(nombres_productos(f.productos), nombre, i);
}

/// Adding a product is accepted exactly for the owner, a name of at most
/// `MAX_NOMBRE` bytes, a shop with room and a price that is not zero; the new
/// product comes last, available, with the given name, price and stock, and
/// nothing else changes.
pub proof fn ley_agregar_producto(
    f: FloreriaV,
    firmante: Pubkey,
    nombre: Seq<char>,
    precio: u64,
    stock: u32,
)
    ensures
        agregar_producto_spec(f, firmante, nombre, precio, stock) is Ok <==> (f.owner == firmante
            && nombre_valido(nombre) && f.productos.len() < MAX_PRODUCTOS && precio != 0),
        agregar_producto_spec(f, firmante, nombre, precio, stock) matches Ok(g) ==> {
            let n = f.productos.len() as int;
            &&& g.productos.len() == n + 1
            &&& forall|j: int| 0 <= j < n ==> #[trigger] g.productos[j] == f.productos[j]
            &&& g.productos[n].nombre == nombre
            &&& g.productos[n].precio == precio
            &&& g.productos[n].stock == stock
            &&& g.productos[n].disponible
            &&& g.clientes == f.clientes
            &&& g.owner == f.owner
            &&& g.nombre == f.nombre
        },
{
}

/// Registering a customer is accepted exactly for the owner, a name of at
/// most `MAX_NOMBRE` bytes and a shop with room; the new customer comes last,
/// with that name, no purchases and nothing spent, and nothing else changes.
pub proof fn ley_registrar_cliente(f: FloreriaV, firmante: Pubkey, nombre: Seq<char>)
    ensures
        registrar_cliente_spec(f, firmante, nombre) is Ok <==> (f.owner == firmante && nombre_valido(
            nombre,
        ) && f.clientes.len() < MAX_CLIENTES),
        registrar_cliente_spec(f, firmante, nombre) matches Ok(g) ==> {
            let n = f.clientes.len() as int;
            &&& g.clientes.len() == n + 1
            &&& forall|j: int| 0 <= j < n ==> #[trigger] g.clientes[j] == f.clientes[j]
            &&& g.clientes[n].nombre == nombre
            &&& g.clientes[n].compras == 0
            &&& g.clientes[n].gastado_total == 0
            &&& g.productos == f.productos
            &&& g.owner == f.owner
            &&& g.nombre == f.nombre
        },
{
}

/// A sale of a quantity that is not zero, signed by the owner, between the
/// first customer and the first product with the given names, is accepted
/// exactly when that product is available, has at least that many units and
/// the amount fits in 64 bits. Its availability is not what a sale changes:
/// an accepted sale keeps it.
pub proof fn ley_aceptacion_venta(
    f: FloreriaV,
    firmante: Pubkey,
    cliente: Seq<char>,
    producto: Seq<char>,
    cantidad: u16,
    ci: int,
    pi: int,
)
    requires
        es_primera(nombres_clientes(f.clientes), cliente, ci),
        es_primera(nombres_productos(f.productos), producto, pi),
    ensures
        registrar_venta_spec(f, firmante, cliente, producto, cantidad) is Ok <==> {
            &&& f.owner == firmante
            &&& cantidad != 0
            &&& f.productos[pi].disponible
            &&& f.productos[pi].stock >= cantidad
            &&& f.productos[pi].precio * cantidad <= u64::MAX
        },
        registrar_venta_spec(f, firmante, cliente, producto, cantidad) matches Ok((g, v)) ==> {
            &&& g.productos[pi].disponible == f.productos[pi].disponible
            &&& g.productos[pi].stock + cantidad == f.productos[pi].stock
            &&& v.precio_unitario == f.productos[pi].precio
            &&& v.total == f.productos[pi].precio * cantidad
        },
{
    lema_es_primera(nombres_clientes(f.clientes), cliente, ci);
    lema_es_primera(nombres_productos(f.productos), producto, pi);
}

/// A new shop is made exactly when its name has at most `MAX_NOMBRE` bytes;
/// it belongs to the given owner, bears that name and holds no products and
/// no customers. A longer name is answered with `NombreMuyLargo`.
pub proof fn ley_crear_floreria(owner: Pubkey, nombre: Seq<char>)
    ensures
        crear_floreria_spec(owner, nombre) is Ok <==> nombre_valido(nombre),
        !nombre_valido(nombre) ==> crear_floreria_spec(owner, nombre) == Err::<FloreriaV, Errores>(
            Errores::NombreMuyLargo,
        ),
        crear_floreria_spec(owner, nombre) matches Ok(g) ==> {
            &&& g.owner == owner
            &&& g.nombre == nombre
            &&& g.productos.len() == 0
            &&& g.clientes.len() == 0
        },
{
}

} // verus!
