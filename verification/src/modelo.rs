use vstd::prelude::*;
use vstd::utf8::encode_utf8;

use crate::clave::Pubkey;

verus! {

/// Longest name, in UTF-8 bytes, of a shop, a product or a customer.
pub const MAX_NOMBRE: usize = 60;

/// Most products a shop can hold.
pub const MAX_PRODUCTOS: usize = 40;

/// Most customers a shop can hold.
pub const MAX_CLIENTES: usize = 40;

/// Why an instruction was refused.
#[derive(Clone, Copy, Debug, PartialEq, Eq, Structural)]
pub enum Errores {
    /// The signer is not the owner of the shop.
    NoEresOwner,
    /// No product has that name (or it is not available for sale).
    ProductoNoExiste,
    /// No customer has that name.
    ClienteNoExiste,
    /// The shop already holds the most products it can.
    CapacidadDeProductosLlena,
    /// The shop already holds the most customers it can.
    CapacidadDeClientesLlena,
    /// The name is longer than allowed.
    NombreMuyLargo,
    /// A price of zero.
    PrecioInvalido,
    /// Not enough units in stock.
    StockInsuficiente,
    /// A quantity of zero.
    CantidadInvalida,
    /// The amount of a sale does not fit in 64 bits.
    MontoOverflow,
}

/// A product on sale.
#[derive(Debug)]
pub struct Producto {
    pub nombre: String,
    /// Price of one unit, in lamports.
    pub precio: u64,
    /// Units in stock.
    pub stock: u32,
    /// Whether it can be sold.
    pub disponible: bool,
}

/// A registered customer.
#[derive(Debug)]
pub struct Cliente {
    pub nombre: String,
    /// Number of purchases.
    pub compras: u32,
    /// Total spent, in lamports.
    pub gastado_total: u64,
}

/// The shop of one owner.
#[derive(Debug)]
pub struct Floreria {
    /// The only key allowed to change the shop.
    pub owner: Pubkey,
    pub nombre: String,
    pub productos: Vec<Producto>,
    pub clientes: Vec<Cliente>,
}

/// What a product is, as a value.
#[verifier::ext_equal]
pub struct ProductoV {
    pub nombre: Seq<char>,
    pub precio: u64,
    pub stock: u32,
    pub disponible: bool,
}

/// What a customer is, as a value.
#[verifier::ext_equal]
pub struct ClienteV {
    pub nombre: Seq<char>,
    pub compras: u32,
    pub gastado_total: u64,
}

/// What a shop is, as a value.
#[verifier::ext_equal]
pub struct FloreriaV {
    pub owner: Pubkey,
    pub nombre: Seq<char>,
    pub productos: Seq<ProductoV>,
    pub clientes: Seq<ClienteV>,
}

impl View for Producto {
    type V = ProductoV;

    open spec fn view(&self) -> ProductoV {
        ProductoV {
            nombre: self.nombre@,
            precio: self.precio,
            stock: self.stock,
            disponible: self.disponible,
        }
    }
}

impl View for Cliente {
    type V = ClienteV;

    open spec fn view(&self) -> ClienteV {
        ClienteV { nombre: self.nombre@, compras: self.compras, gastado_total: self.gastado_total }
    }
}

/// The values of a list of products.
pub open spec fn vista_productos(v: Seq<Producto>) -> Seq<ProductoV> {
    v.map_values(|p: Producto| p@)
}

/// The values of a list of customers.
pub open spec fn vista_clientes(v: Seq<Cliente>) -> Seq<ClienteV> {
    v.map_values(|c: Cliente| c@)
}

impl View for Floreria {
    type V = FloreriaV;

    open spec fn view(&self) -> FloreriaV {
        FloreriaV {
            owner: self.owner,
            nombre: self.nombre@,
            productos: vista_productos(self.productos@),
            clientes: vista_clientes(self.clientes@),
        }
    }
}

/// The length of a name in UTF-8 bytes, which is what `str::len` counts.
pub open spec fn longitud_utf8(s: Seq<char>) -> nat {
    encode_utf8(s).len()
}

/// A name no longer than `MAX_NOMBRE` bytes.
pub open spec fn nombre_valido(s: Seq<char>) -> bool {
    longitud_utf8(s) <= MAX_NOMBRE
}

/// The names of a list of products, in order.
pub open spec fn nombres_productos(ps: Seq<ProductoV>) -> Seq<Seq<char>> {
    ps.map_values(|p: ProductoV| p.nombre)
}

/// The names of a list of customers, in order.
pub open spec fn nombres_clientes(cs: Seq<ClienteV>) -> Seq<Seq<char>> {
    cs.map_values(|c: ClienteV| c.nombre)
}

/// The first position at or after `k` whose name is `nombre`.
pub open spec fn primera_desde(nombres: Seq<Seq<char>>, nombre: Seq<char>, k: int) -> Option<int>
    decreases nombres.len() - k,
{
    if k < 0 || k >= nombres.len() {
        None
    } else if nombres[k] == nombre {
        Some(k)
    } else {
        primera_desde(nombres, nombre, k + 1)
    }
}

/// The first position whose name is `nombre`, if any.
pub open spec fn primera(nombres: Seq<Seq<char>>, nombre: Seq<char>) -> Option<int> {
    primera_desde(nombres, nombre, 0)
}

/// What `primera_desde` finds: the first position at or after `k` holding
/// `nombre`, or nothing when no position from `k` on holds it.
pub proof fn lema_primera_desde(nombres: Seq<Seq<char>>, nombre: Seq<char>, k: int)
    requires
        0 <= k,
    ensures
        match primera_desde(nombres, nombre, k) {
            Some(i) => k <= i < nombres.len() && nombres[i] == nombre && forall|j: int|
                k <= j < i ==> nombres[j] != nombre,
            None => forall|j: int| k <= j < nombres.len() ==> nombres[j] != nombre,
        },
    decreases nombres.len() - k,
{
    if k < nombres.len() && nombres[k] != nombre {
        lema_primera_desde(nombres, nombre, k + 1);
    }
}

/// What `primera` finds: the first position holding `nombre`, or nothing
/// when no position holds it.
pub proof fn lema_primera(nombres: Seq<Seq<char>>, nombre: Seq<char>)
    ensures
        match primera(nombres, nombre) {
            Some(i) => 0 <= i < nombres.len() && nombres[i] == nombre && forall|j: int|
                0 <= j < i ==> nombres[j] != nombre,
            None => forall|j: int| 0 <= j < nombres.len() ==> nombres[j] != nombre,
        },
{
    lema_primera_desde(nombres, nombre, 0);
}

/// `i` is the first position whose name is `nombre`.
pub open spec fn es_primera(nombres: Seq<Seq<char>>, nombre: Seq<char>, i: int) -> bool {
    &&& 0 <= i < nombres.len()
    &&& nombres[i] == nombre
    &&& forall|j: int| 0 <= j < i ==> nombres[j] != nombre
}

/// `primera` finds exactly the first position holding the name.
pub proof fn lema_es_primera(nombres: Seq<Seq<char>>, nombre: Seq<char>, i: int)
    requires
        es_primera(nombres, nombre, i),
    ensures
        primera(nombres, nombre) == Some(i),
{
    lema_primera(nombres, nombre);
}

impl FloreriaV {
    /// What every shop keeps: names within bounds, lists within capacity,
    /// and no product with a price of zero.
    pub open spec fn es_valida(self) -> bool {
        &&& nombre_valido(self.nombre)
        &&& self.productos.len() <= MAX_PRODUCTOS
        &&& self.clientes.len() <= MAX_CLIENTES
        &&& forall|i: int|
            0 <= i < self.productos.len() ==> nombre_valido(#[trigger] self.productos[i].nombre)
                && self.productos[i].precio > 0
        &&& forall|i: int|
            0 <= i < self.clientes.len() ==> nombre_valido(#[trigger] self.clientes[i].nombre)
    }
}

} // verus!
