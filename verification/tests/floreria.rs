use floreria::{
    actualizar_precio, actualizar_stock, agregar_producto, alterar_producto, crear_floreria,
    eliminar_producto, leer_clientes, leer_productos, registrar_cliente, registrar_venta, Errores,
    Floreria, Pubkey, Venta, MAX_CLIENTES, MAX_PRODUCTOS,
};

fn dueno() -> Pubkey {
    Pubkey([7u8; 32])
}

fn extrano() -> Pubkey {
    let mut b = [7u8; 32];
    b[31] = 8;
    Pubkey(b)
}

fn tienda() -> Floreria {
    crear_floreria(dueno(), "Flores del Sol".to_string()).unwrap()
}

fn nombres(f: &Floreria) -> Vec<String> {
    f.productos.iter().map(|p| p.nombre.clone()).collect()
}

#[test]
fn crear_floreria_empieza_vacia() {
    let f = tienda();
    assert_eq!(f.owner, dueno());
    assert_eq!(f.nombre, "Flores del Sol");
    assert_eq!(leer_productos(&f), 0);
    assert_eq!(leer_clientes(&f), 0);
}

#[test]
fn crear_floreria_limite_de_nombre_en_bytes() {
    // 60 bytes are accepted, 61 are not.
    assert!(crear_floreria(dueno(), "a".repeat(60)).is_ok());
    assert_eq!(crear_floreria(dueno(), "a".repeat(61)).err(), Some(Errores::NombreMuyLargo));
    // 'ñ' takes two bytes: 30 of them are 60 bytes, 31 are 62.
    assert!(crear_floreria(dueno(), "ñ".repeat(30)).is_ok());
    assert_eq!(crear_floreria(dueno(), "ñ".repeat(31)).err(), Some(Errores::NombreMuyLargo));
}

#[test]
fn agregar_producto_al_final_y_disponible() {
    let mut f = tienda();
    assert_eq!(agregar_producto(&mut f, &dueno(), "Rosa".to_string(), 500, 10), Ok(()));
    assert_eq!(agregar_producto(&mut f, &dueno(), "Lirio".to_string(), 300, 0), Ok(()));
    assert_eq!(nombres(&f), vec!["Rosa".to_string(), "Lirio".to_string()]);
    assert_eq!(f.productos[1].precio, 300);
    assert_eq!(f.productos[1].stock, 0);
    assert!(f.productos[1].disponible);
    assert_eq!(leer_productos(&f), 2);
}

#[test]
fn agregar_producto_errores_en_orden() {
    let mut f = tienda();
    // The owner check comes first, even with a long name and a zero price.
    assert_eq!(
        agregar_producto(&mut f, &extrano(), "x".repeat(70), 0, 1),
        Err(Errores::NoEresOwner)
    );
    assert_eq!(
        agregar_producto(&mut f, &dueno(), "x".repeat(61), 0, 1),
        Err(Errores::NombreMuyLargo)
    );
    assert_eq!(
        agregar_producto(&mut f, &dueno(), "Rosa".to_string(), 0, 1),
        Err(Errores::PrecioInvalido)
    );
    assert_eq!(leer_productos(&f), 0);
}

#[test]
fn agregar_producto_capacidad_llena() {
    let mut f = tienda();
    for i in 0..MAX_PRODUCTOS {
        assert_eq!(agregar_producto(&mut f, &dueno(), format!("p{}", i), 1, 1), Ok(()));
    }
    assert_eq!(leer_productos(&f), 40);
    // A full shop is refused before the price is looked at.
    assert_eq!(
        agregar_producto(&mut f, &dueno(), "extra".to_string(), 0, 1),
        Err(Errores::CapacidadDeProductosLlena)
    );
    assert_eq!(leer_productos(&f), 40);
}

#[test]
fn eliminar_producto_quita_el_primero_con_ese_nombre() {
    let mut f = tienda();
    agregar_producto(&mut f, &dueno(), "Rosa".to_string(), 1, 1).unwrap();
    agregar_producto(&mut f, &dueno(), "Lirio".to_string(), 2, 2).unwrap();
    agregar_producto(&mut f, &dueno(), "Rosa".to_string(), 3, 3).unwrap();
    assert_eq!(eliminar_producto(&mut f, &dueno(), "Rosa".to_string()), Ok(()));
    assert_eq!(nombres(&f), vec!["Lirio".to_string(), "Rosa".to_string()]);
    assert_eq!(f.productos[1].precio, 3);
    assert_eq!(
        eliminar_producto(&mut f, &dueno(), "Tulipan".to_string()),
        Err(Errores::ProductoNoExiste)
    );
    assert_eq!(
        eliminar_producto(&mut f, &extrano(), "Lirio".to_string()),
        Err(Errores::NoEresOwner)
    );
    assert_eq!(leer_productos(&f), 2);
}

#[test]
fn alterar_producto_alterna_disponibilidad() {
    let mut f = tienda();
    agregar_producto(&mut f, &dueno(), "Rosa".to_string(), 1, 1).unwrap();
    assert_eq!(alterar_producto(&mut f, &dueno(), "Rosa".to_string()), Ok(false));
    assert!(!f.productos[0].disponible);
    assert_eq!(alterar_producto(&mut f, &dueno(), "Rosa".to_string()), Ok(true));
    assert!(f.productos[0].disponible);
    assert_eq!(
        alterar_producto(&mut f, &dueno(), "Clavel".to_string()),
        Err(Errores::ProductoNoExiste)
    );
    assert_eq!(
        alterar_producto(&mut f, &extrano(), "Rosa".to_string()),
        Err(Errores::NoEresOwner)
    );
}

#[test]
fn alterar_dos_veces_deja_la_tienda_igual() {
    let mut f = tienda();
    agregar_producto(&mut f, &dueno(), "Rosa".to_string(), 5, 9).unwrap();
    agregar_producto(&mut f, &dueno(), "Lirio".to_string(), 6, 8).unwrap();
    let antes: Vec<(String, u64, u32, bool)> = f
        .productos
        .iter()
        .map(|p| (p.nombre.clone(), p.precio, p.stock, p.disponible))
        .collect();
    let a = alterar_producto(&mut f, &dueno(), "Lirio".to_string()).unwrap();
    let b = alterar_producto(&mut f, &dueno(), "Lirio".to_string()).unwrap();
    assert_eq!(b, !a);
    let despues: Vec<(String, u64, u32, bool)> = f
        .productos
        .iter()
        .map(|p| (p.nombre.clone(), p.precio, p.stock, p.disponible))
        .collect();
    assert_eq!(antes, despues);
}

#[test]
fn agregar_y_eliminar_deja_la_tienda_igual() {
    let mut f = tienda();
    agregar_producto(&mut f, &dueno(), "Rosa".to_string(), 5, 9).unwrap();
    agregar_producto(&mut f, &dueno(), "Orquidea".to_string(), 50, 1).unwrap();
    eliminar_producto(&mut f, &dueno(), "Orquidea".to_string()).unwrap();
    assert_eq!(nombres(&f), vec!["Rosa".to_string()]);
    assert_eq!(f.productos[0].precio, 5);
    assert_eq!(f.productos[0].stock, 9);
}

#[test]
fn actualizar_precio_y_stock() {
    let mut f = tienda();
    agregar_producto(&mut f, &dueno(), "Rosa".to_string(), 5, 9).unwrap();
    agregar_producto(&mut f, &dueno(), "Rosa".to_string(), 6, 8).unwrap();
    assert_eq!(actualizar_precio(&mut f, &dueno(), "Rosa".to_string(), 70), Ok(()));
    assert_eq!(f.productos[0].precio, 70);
    assert_eq!(f.productos[1].precio, 6);
    assert_eq!(actualizar_stock(&mut f, &dueno(), "Rosa".to_string(), 0), Ok(()));
    assert_eq!(f.productos[0].stock, 0);
    assert_eq!(f.productos[1].stock, 8);
    assert_eq!(
        actualizar_precio(&mut f, &dueno(), "Rosa".to_string(), 0),
        Err(Errores::PrecioInvalido)
    );
    // The zero price is refused before the name is looked up.
    assert_eq!(
        actualizar_precio(&mut f, &dueno(), "Nada".to_string(), 0),
        Err(Errores::PrecioInvalido)
    );
    assert_eq!(
        actualizar_precio(&mut f, &dueno(), "Nada".to_string(), 1),
        Err(Errores::ProductoNoExiste)
    );
    assert_eq!(
        actualizar_stock(&mut f, &dueno(), "Nada".to_string(), 1),
        Err(Errores::ProductoNoExiste)
    );
    assert_eq!(
        actualizar_precio(&mut f, &extrano(), "Rosa".to_string(), 1),
        Err(Errores::NoEresOwner)
    );
    assert_eq!(
        actualizar_stock(&mut f, &extrano(), "Rosa".to_string(), 1),
        Err(Errores::NoEresOwner)
    );
    assert_eq!(f.productos[0].precio, 70);
    assert_eq!(f.productos[0].stock, 0);
}

#[test]
fn registrar_cliente_y_capacidad() {
    let mut f = tienda();
    assert_eq!(registrar_cliente(&mut f, &extrano(), "Ana".to_string()), Err(Errores::NoEresOwner));
    assert_eq!(
        registrar_cliente(&mut f, &dueno(), "b".repeat(61)),
        Err(Errores::NombreMuyLargo)
    );
    for i in 0..MAX_CLIENTES {
        assert_eq!(registrar_cliente(&mut f, &dueno(), format!("c{}", i)), Ok(()));
    }
    assert_eq!(f.clientes[0].nombre, "c0");
    assert_eq!(f.clientes[0].compras, 0);
    assert_eq!(f.clientes[0].gastado_total, 0);
    assert_eq!(
        registrar_cliente(&mut f, &dueno(), "otro".to_string()),
        Err(Errores::CapacidadDeClientesLlena)
    );
    assert_eq!(leer_clientes(&f), 40);
}

fn tienda_con_venta() -> Floreria {
    let mut f = tienda();
    agregar_producto(&mut f, &dueno(), "Rosa".to_string(), 250, 10).unwrap();
    registrar_cliente(&mut f, &dueno(), "Ana".to_string()).unwrap();
    f
}

#[test]
fn registrar_venta_descuenta_y_acumula() {
    let mut f = tienda_con_venta();
    assert_eq!(
        registrar_venta(&mut f, &dueno(), "Ana".to_string(), "Rosa".to_string(), 4),
        Ok(Venta { precio_unitario: 250, total: 1000 })
    );
    assert_eq!(f.productos[0].stock, 6);
    assert_eq!(f.clientes[0].compras, 1);
    assert_eq!(f.clientes[0].gastado_total, 1000);
    // Selling exactly the remaining stock is allowed.
    assert_eq!(
        registrar_venta(&mut f, &dueno(), "Ana".to_string(), "Rosa".to_string(), 6),
        Ok(Venta { precio_unitario: 250, total: 1500 })
    );
    assert_eq!(f.productos[0].stock, 0);
    assert_eq!(f.clientes[0].compras, 2);
    assert_eq!(f.clientes[0].gastado_total, 2500);
}

#[test]
fn registrar_venta_errores() {
    let mut f = tienda_con_venta();
    assert_eq!(
        registrar_venta(&mut f, &extrano(), "Ana".to_string(), "Rosa".to_string(), 1),
        Err(Errores::NoEresOwner)
    );
    assert_eq!(
        registrar_venta(&mut f, &dueno(), "Nadie".to_string(), "Rosa".to_string(), 0),
        Err(Errores::CantidadInvalida)
    );
    assert_eq!(
        registrar_venta(&mut f, &dueno(), "Nadie".to_string(), "Nada".to_string(), 1),
        Err(Errores::ClienteNoExiste)
    );
    assert_eq!(
        registrar_venta(&mut f, &dueno(), "Ana".to_string(), "Nada".to_string(), 1),
        Err(Errores::ProductoNoExiste)
    );
    assert_eq!(
        registrar_venta(&mut f, &dueno(), "Ana".to_string(), "Rosa".to_string(), 11),
        Err(Errores::StockInsuficiente)
    );
    alterar_producto(&mut f, &dueno(), "Rosa".to_string()).unwrap();
    assert_eq!(
        registrar_venta(&mut f, &dueno(), "Ana".to_string(), "Rosa".to_string(), 1),
        Err(Errores::ProductoNoExiste)
    );
    // Refused sales change nothing.
    assert_eq!(f.productos[0].stock, 10);
    assert_eq!(f.clientes[0].compras, 0);
    assert_eq!(f.clientes[0].gastado_total, 0);
}

#[test]
fn registrar_venta_monto_overflow() {
    let mut f = tienda();
    agregar_producto(&mut f, &dueno(), "Diamante".to_string(), u64::MAX, 5).unwrap();
    registrar_cliente(&mut f, &dueno(), "Ana".to_string()).unwrap();
    assert_eq!(
        registrar_venta(&mut f, &dueno(), "Ana".to_string(), "Diamante".to_string(), 2),
        Err(Errores::MontoOverflow)
    );
    assert_eq!(f.productos[0].stock, 5);
    assert_eq!(
        registrar_venta(&mut f, &dueno(), "Ana".to_string(), "Diamante".to_string(), 1),
        Ok(Venta { precio_unitario: u64::MAX, total: u64::MAX })
    );
    assert_eq!(f.clientes[0].gastado_total, u64::MAX);
}

#[test]
fn registrar_venta_satura_gastado_y_compras() {
    let mut f = tienda_con_venta();
    f.clientes[0].gastado_total = u64::MAX - 100;
    f.clientes[0].compras = u32::MAX;
    assert_eq!(
        registrar_venta(&mut f, &dueno(), "Ana".to_string(), "Rosa".to_string(), 1),
        Ok(Venta { precio_unitario: 250, total: 250 })
    );
    assert_eq!(f.clientes[0].gastado_total, u64::MAX);
    assert_eq!(f.clientes[0].compras, u32::MAX);
    assert_eq!(f.productos[0].stock, 9);
}

#[test]
fn registrar_venta_usa_el_primer_cliente_con_ese_nombre() {
    let mut f = tienda_con_venta();
    registrar_cliente(&mut f, &dueno(), "Ana".to_string()).unwrap();
    registrar_venta(&mut f, &dueno(), "Ana".to_string(), "Rosa".to_string(), 2).unwrap();
    assert_eq!(f.clientes[0].gastado_total, 500);
    assert_eq!(f.clientes[1].gastado_total, 0);
}

#[test]
fn pubkey_es_igual() {
    assert!(dueno().es_igual(&dueno()));
    assert!(!dueno().es_igual(&extrano()));
}

#[test]
fn ninguna_instruccion_cambia_dueno_ni_nombre() {
    let mut f = tienda_con_venta();
    actualizar_precio(&mut f, &dueno(), "Rosa".to_string(), 9).unwrap();
    actualizar_stock(&mut f, &dueno(), "Rosa".to_string(), 3).unwrap();
    alterar_producto(&mut f, &dueno(), "Rosa".to_string()).unwrap();
    alterar_producto(&mut f, &dueno(), "Rosa".to_string()).unwrap();
    registrar_venta(&mut f, &dueno(), "Ana".to_string(), "Rosa".to_string(), 3).unwrap();
    eliminar_producto(&mut f, &dueno(), "Rosa".to_string()).unwrap();
    assert_eq!(f.owner, dueno());
    assert_eq!(f.nombre, "Flores del Sol");
    assert_eq!(leer_productos(&f), 0);
    assert_eq!(leer_clientes(&f), 1);
    assert_eq!(f.clientes[0].gastado_total, 27);
}
