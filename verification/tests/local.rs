use ecommerce::common::error_local::ErrorLocal;
use ecommerce::common::local::{atender_paquete, Atencion, Local, Productos, Resolucion};
use ecommerce::common::orden::Orden;
use ecommerce::common::stock_producto::StockProducto;
use std::collections::HashMap;

struct FactoryProductos {
    id_actual: usize,
}

impl FactoryProductos {
    fn crear_producto(&mut self, stock: usize, bloqueados: usize) -> StockProducto {
        let id_producto = self.id_actual;
        self.id_actual += 1;
        StockProducto::new_con_bloqueados(id_producto, stock, bloqueados)
    }
}

fn crear_local(productos: Productos) -> Local {
    Local::new(productos)
}

#[test]
fn test_instanciar_local() {
    let productos: Productos = HashMap::new();
    let local = Local::new(productos);

    assert_eq!(local.productos_en_stock.len(), 0);
}

#[test]
fn test_agregar_orden_de_3_productos_id_1_a_local_con_10_productos_id_1_devuelve_ok() {
    let mut productos: Productos = HashMap::new();
    productos.insert(1, StockProducto::new(1, 10));
    let mut local = crear_local(productos);

    let orden = Orden::new(1, 3, 33, 22);

    assert!(local.agregar_orden(orden).is_ok());
    assert_eq!(local.productos_en_stock.get(&1usize).unwrap().bloqueados, 3);
    assert_eq!(local.productos_en_stock.get(&1usize).unwrap().stock, 10);
}

#[test]
fn test_agregar_orden_de_3_productos_id_1_a_local_sin_suficiente_stock_devuelve_error_stock_insuficiente(
) {
    let mut productos: Productos = HashMap::new();
    let id_producto = 1;
    productos.insert(id_producto, StockProducto::new(id_producto, 1));
    let mut local = crear_local(productos);

    let orden = Orden::new(1, 3, 33, 22);
    let resultado = local.agregar_orden(orden);
    assert!(resultado.is_err());
    assert_eq!(resultado.unwrap_err(), ErrorLocal::StockInsuficiente);
}

#[test]
fn test_agregar_orden_de_producto_con_id_inexistente_devuelve_error_no_existe_producto_en_local(
) {
    let mut productos: Productos = HashMap::new();
    let id_producto = 1;
    productos.insert(id_producto, StockProducto::new(id_producto, 1));
    let mut local = crear_local(productos);

    let orden = Orden::new(2398462734, 3, 33, 22);
    let resultado = local.agregar_orden(orden);
    assert!(resultado.is_err());
    assert_eq!(resultado.unwrap_err(), ErrorLocal::NoExisteProductoEnLocal);
}

#[test]
fn test_agregar_orden_incrementa_la_cantidad_de_ordenes_en_progreso_en_1() {
    let mut productos: Productos = HashMap::new();
    let id_producto = 1;
    productos.insert(id_producto, StockProducto::new(id_producto, 10));
    let mut local = crear_local(productos);

    let orden = Orden::new(1, 3, 33, 22);

    assert!(local.agregar_orden(orden).is_ok());
    assert_eq!(local.ordenes_en_progreso.len(), 1);
    assert_eq!(local.ordenes_en_progreso.last().unwrap().id_producto, 1);
    assert_eq!(local.ordenes_en_progreso.last().unwrap().cantidad, 3);
}

#[test]
fn test_local_vender_orden_producto_id_1_cantidad_10_cuando_stock_20_reduce_en_10_el_stock() {
    let mut productos: Productos = HashMap::new();
    let id_producto = 1;
    productos.insert(id_producto, StockProducto::new(id_producto, 20));
    let mut local = crear_local(productos);

    let orden = Orden::new(1, 10, 33, 22);

    assert!(local.vender(orden).is_ok());
    assert_eq!(local.productos_en_stock.get(&1usize).unwrap().stock, 10);
    assert_eq!(local.productos_en_stock.get(&1usize).unwrap().bloqueados, 0);
}

#[test]
fn test_local_vender_orden_producto_id_1_cantidad_10_cuando_stock_5_devuelve_error() {
    let mut productos: Productos = HashMap::new();
    let id_producto = 1;
    productos.insert(id_producto, StockProducto::new(id_producto, 5));
    let mut local = crear_local(productos);

    let orden = Orden::new(1, 10, 33, 22);

    assert!(local.vender(orden).is_err());
    assert_eq!(local.productos_en_stock.get(&1usize).unwrap().stock, 5);
    assert_eq!(local.productos_en_stock.get(&1usize).unwrap().bloqueados, 0);
}

#[test]
fn test_local_vender_orden_producto_id_1_cantidad_10_cuando_stock_15_y_bloqueados_5_reduce_en_10_el_stock(
) {
    let mut productos: Productos = HashMap::new();
    let id_producto = 1;
    productos.insert(
        id_producto,
        StockProducto::new_con_bloqueados(id_producto, 15, 5),
    );
    let mut local = crear_local(productos);

    let orden = Orden::new(1, 10, 33, 22);

    assert!(local.vender(orden).is_ok());
    assert_eq!(local.productos_en_stock.get(&1usize).unwrap().stock, 5);
    assert_eq!(local.productos_en_stock.get(&1usize).unwrap().bloqueados, 5);
}

#[test]
fn test_dado_local_con_1_orden_y_10_stock_producto_id_1_cuando_entrega_orden_5_productos_id_1_entonces_reduce_stock_en_5_y_bloqueados_en_5(
) {
    let mut productos: Productos = HashMap::new();
    let id_producto = 1;
    productos.insert(
        id_producto,
        StockProducto::new_con_bloqueados(id_producto, 15, 0),
    );
    let mut local = crear_local(productos);
    let orden = Orden::new(id_producto, 5, 33, 22);
    let _ = local.agregar_orden(orden);

    let resultado = local.entregar_orden(|| 0);

    assert!(resultado.is_ok());
    assert_eq!(local.ordenes_en_progreso.len(), 0);
    assert_eq!(
        local.productos_en_stock.get(&id_producto).unwrap().stock,
        10
    );
    assert_eq!(
        local
            .productos_en_stock
            .get(&id_producto)
            .unwrap()
            .bloqueados,
        0
    );
}

#[test]
fn test_dado_local_con_2_ordenes_cuando_se_entrega_segunda_orden_queda_la_primera_orden_sin_entregar(
) {
    let mut productos: Productos = HashMap::new();
    let id_producto = 1;
    productos.insert(
        id_producto,
        StockProducto::new_con_bloqueados(id_producto, 15, 0),
    );
    let mut local = crear_local(productos);

    let orden = Orden::new(id_producto, 5, 33, 22);
    let orden_2 = Orden::new(id_producto, 10, 33, 22);
    let _ = local.agregar_orden(orden);
    let _ = local.agregar_orden(orden_2);

    let resultado = local.entregar_orden(|| 1);

    assert!(resultado.is_ok());
    assert_eq!(local.ordenes_en_progreso.len(), 1);
    assert_eq!(local.productos_en_stock.get(&id_producto).unwrap().stock, 5);
    assert_eq!(
        local
            .productos_en_stock
            .get(&id_producto)
            .unwrap()
            .bloqueados,
        5
    );
}

#[test]
fn test_dado_local_con_1_orden_de_10_productos_id_1_cuando_se_cancela_entonces_no_quedan_ordenes_y_bloqueados_se_reduce_en_10(
) {
    let mut productos: Productos = HashMap::new();
    let id_producto = 1;
    productos.insert(
        id_producto,
        StockProducto::new_con_bloqueados(id_producto, 15, 0),
    );
    let mut local = crear_local(productos);
    let orden = Orden::new(id_producto, 10, 33, 22);
    let _ = local.agregar_orden(orden);

    let resultado = local.cancelar_orden(|| 0);

    assert!(resultado.is_ok());
    assert_eq!(local.ordenes_en_progreso.len(), 0);
    assert_eq!(
        local.productos_en_stock.get(&id_producto).unwrap().stock,
        15
    );
    assert_eq!(
        local
            .productos_en_stock
            .get(&id_producto)
            .unwrap()
            .bloqueados,
        0
    );
}

#[test]
fn test_dado_local_con_2_ordenes_cuando_se_cancela_la_segunda_orden_por_10_queda_la_primera_orden_y_bloqueados_se_reduce_en_10(
) {
    let mut factory_productos = FactoryProductos { id_actual: 0 };
    let producto = factory_productos.crear_producto(15, 0);
    let id_producto = producto.id_producto;
    let mut productos: Productos = HashMap::new();
    productos.insert(producto.id_producto, producto);
    let mut local = crear_local(productos);

    let orden = Orden::new(id_producto, 5, 33, 22);
    let orden_2 = Orden::new(id_producto, 10, 33, 22);
    let _ = local.agregar_orden(orden);
    let _ = local.agregar_orden(orden_2);

    let resultado = local.cancelar_orden(|| 1);

    assert!(resultado.is_ok());
    assert_eq!(local.ordenes_en_progreso.len(), 1);
    assert_eq!(
        local.productos_en_stock.get(&id_producto).unwrap().stock,
        15
    );
    assert_eq!(
        local
            .productos_en_stock
            .get(&id_producto)
            .unwrap()
            .bloqueados,
        5
    );
}

#[test]
fn test_reservar_3_de_5_impide_vender_3_y_cancelar_libera_la_reserva() {
    let mut productos: Productos = HashMap::new();
    productos.insert(9, StockProducto::new(9, 5));
    let mut local = crear_local(productos);

    assert_eq!(local.agregar_orden(Orden::new(9, 3, 0, 0)), Ok(()));
    assert_eq!(local.productos_en_stock.get(&9usize).unwrap().bloqueados, 3);
    assert_eq!(
        local.vender(Orden::new(9, 3, 0, 0)),
        Err(ErrorLocal::StockInsuficiente)
    );
    assert_eq!(local.cancelar_orden(|| 0), Ok(()));
    assert_eq!(
        *local.productos_en_stock.get(&9usize).unwrap(),
        StockProducto::new_con_bloqueados(9, 5, 0)
    );
    assert!(local.ordenes_en_progreso.is_empty());
}

#[test]
fn test_agregar_orden_rechazada_no_cambia_el_local() {
    let mut productos: Productos = HashMap::new();
    productos.insert(1, StockProducto::new(1, 2));
    let mut local = crear_local(productos);

    assert_eq!(
        local.agregar_orden(Orden::new(1, 3, 0, 0)),
        Err(ErrorLocal::StockInsuficiente)
    );
    assert_eq!(
        local.agregar_orden(Orden::new(2, 1, 0, 0)),
        Err(ErrorLocal::NoExisteProductoEnLocal)
    );
    assert!(local.ordenes_en_progreso.is_empty());
    assert_eq!(local.productos_en_stock.len(), 1);
    assert_eq!(
        *local.productos_en_stock.get(&1usize).unwrap(),
        StockProducto::new(1, 2)
    );
}

#[test]
fn test_vender_producto_inexistente_devuelve_no_existe_producto_en_local() {
    let mut local = crear_local(HashMap::new());

    assert_eq!(
        local.vender(Orden::new(4, 1, 0, 0)),
        Err(ErrorLocal::NoExisteProductoEnLocal)
    );
}

#[test]
fn test_indice_fuera_de_la_lista_no_resuelve_nada_y_devuelve_ok() {
    let mut productos: Productos = HashMap::new();
    productos.insert(1, StockProducto::new(1, 10));
    let mut local = crear_local(productos);
    let _ = local.agregar_orden(Orden::new(1, 4, 0, 0));

    assert_eq!(local.entregar_orden(|| 1), Ok(()));
    assert_eq!(local.cancelar_orden(|| 7), Ok(()));
    assert_eq!(local.resolver_orden(usize::MAX, true), Ok(()));
    assert_eq!(local.ordenes_en_progreso.len(), 1);
    assert_eq!(
        *local.productos_en_stock.get(&1usize).unwrap(),
        StockProducto::new_con_bloqueados(1, 10, 4)
    );
}

#[test]
fn test_entrega_fallida_pierde_la_orden_y_deja_el_stock_como_estaba() {
    let mut productos: Productos = HashMap::new();
    productos.insert(1, StockProducto::new(1, 10));
    let mut local = crear_local(productos);
    local.ordenes_en_progreso.push(Orden::new(1, 4, 0, 0));
    local.ordenes_en_progreso.push(Orden::new(1, 2, 0, 0));

    assert_eq!(
        local.entregar_orden(|| 0),
        Err(ErrorLocal::CantidadOrdenMayorQueBloqueados)
    );
    assert_eq!(local.ordenes_en_progreso, vec![Orden::new(1, 2, 0, 0)]);
    assert_eq!(
        *local.productos_en_stock.get(&1usize).unwrap(),
        StockProducto::new(1, 10)
    );
}

#[test]
fn test_resolver_orden_de_producto_que_ya_no_existe_devuelve_error_y_quita_la_orden() {
    let mut local = crear_local(HashMap::new());
    local.ordenes_en_progreso.push(Orden::new(5, 1, 0, 0));

    assert_eq!(
        local.resolver_orden(0, false),
        Err(ErrorLocal::NoExisteProductoEnLocal)
    );
    assert!(local.ordenes_en_progreso.is_empty());
}

#[test]
fn test_resolver_orden_entrega_o_cancela_segun_se_pida() {
    let mut productos: Productos = HashMap::new();
    productos.insert(1, StockProducto::new(1, 10));
    let mut local = crear_local(productos);
    let _ = local.agregar_orden(Orden::new(1, 4, 0, 0));
    let _ = local.agregar_orden(Orden::new(1, 3, 0, 0));

    assert_eq!(local.resolver_orden(1, true), Ok(()));
    assert_eq!(
        *local.productos_en_stock.get(&1usize).unwrap(),
        StockProducto::new_con_bloqueados(1, 7, 4)
    );
    assert_eq!(local.resolver_orden(0, false), Ok(()));
    assert_eq!(
        *local.productos_en_stock.get(&1usize).unwrap(),
        StockProducto::new_con_bloqueados(1, 7, 0)
    );
    assert!(local.ordenes_en_progreso.is_empty());
}

#[test]
fn test_resolver_al_azar_sin_ordenes_no_hace_nada() {
    let mut productos: Productos = HashMap::new();
    productos.insert(1, StockProducto::new(1, 10));
    let mut local = crear_local(productos);

    assert_eq!(local.resolver_orden_al_azar(), Ok(Resolucion::SinOrdenes));
    assert_eq!(
        *local.productos_en_stock.get(&1usize).unwrap(),
        StockProducto::new(1, 10)
    );
}

#[test]
fn test_resolver_al_azar_quita_una_orden_y_la_entrega_o_la_cancela() {
    for _ in 0..50 {
        let mut productos: Productos = HashMap::new();
        productos.insert(1, StockProducto::new(1, 10));
        let mut local = crear_local(productos);
        let _ = local.agregar_orden(Orden::new(1, 2, 0, 0));
        let _ = local.agregar_orden(Orden::new(1, 3, 0, 0));
        let _ = local.agregar_orden(Orden::new(1, 5, 0, 0));

        let resultado = local.resolver_orden_al_azar().unwrap();

        assert_eq!(local.ordenes_en_progreso.len(), 2);
        let quedan: usize = local.ordenes_en_progreso.iter().map(|o| o.cantidad).sum();
        let resuelta = 10 - quedan;
        let linea = *local.productos_en_stock.get(&1usize).unwrap();
        assert_eq!(linea.bloqueados, quedan);
        match resultado {
            Resolucion::Entregada => assert_eq!(linea.stock, 10 - resuelta),
            Resolucion::Cancelada => assert_eq!(linea.stock, 10),
            Resolucion::SinOrdenes => panic!("habia ordenes en progreso"),
        }
    }
}

#[test]
fn test_resolver_al_azar_una_y_otra_vez_vacia_la_lista() {
    let mut productos: Productos = HashMap::new();
    productos.insert(1, StockProducto::new(1, 100));
    let mut local = crear_local(productos);
    for cantidad in 1..=10 {
        let _ = local.agregar_orden(Orden::new(1, cantidad, 0, 0));
    }

    for quedan in (0..10).rev() {
        assert!(local.resolver_orden_al_azar().is_ok());
        assert_eq!(local.ordenes_en_progreso.len(), quedan);
    }
    assert_eq!(local.resolver_orden_al_azar(), Ok(Resolucion::SinOrdenes));
    assert_eq!(local.productos_en_stock.get(&1usize).unwrap().bloqueados, 0);
}

#[test]
fn test_resolver_al_azar_elige_distintas_ordenes_y_distintos_destinos() {
    let mut quedo_la_primera = false;
    let mut quedo_la_segunda = false;
    let mut entregadas = 0;
    let mut canceladas = 0;
    for _ in 0..400 {
        let mut productos: Productos = HashMap::new();
        productos.insert(1, StockProducto::new(1, 10));
        let mut local = crear_local(productos);
        let _ = local.agregar_orden(Orden::new(1, 2, 0, 0));
        let _ = local.agregar_orden(Orden::new(1, 3, 0, 0));

        match local.resolver_orden_al_azar() {
            Ok(Resolucion::Entregada) => entregadas += 1,
            Ok(Resolucion::Cancelada) => canceladas += 1,
            otro => panic!("resultado inesperado: {:?}", otro),
        }
        match local.ordenes_en_progreso[0].cantidad {
            2 => quedo_la_primera = true,
            _ => quedo_la_segunda = true,
        }
    }
    assert!(quedo_la_primera && quedo_la_segunda);
    assert!(entregadas > 0 && canceladas > 0);
    assert_eq!(entregadas + canceladas, 400);
}

#[test]
fn test_un_local_que_no_acepta_ordenes_ignora_los_paquetes() {
    assert_eq!(
        atender_paquete(false, Some(Orden::new(1, 2, 3, 4))),
        Atencion::Ignorar
    );
    assert_eq!(atender_paquete(false, None), Atencion::Ignorar);
}

#[test]
fn test_un_local_que_acepta_ordenes_agrega_la_orden_o_no_reconoce_el_paquete() {
    assert_eq!(
        atender_paquete(true, Some(Orden::new(1, 2, 3, 4))),
        Atencion::Agregar(Orden::new(1, 2, 3, 4))
    );
    assert_eq!(atender_paquete(true, None), Atencion::NoReconocido);
}
