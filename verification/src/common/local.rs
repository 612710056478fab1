use crate::common::error_local::ErrorLocal;
use crate::common::lector_csv::campos;
use crate::common::orden::Orden;
use crate::common::stock_producto::{stock_de_campos, StockProducto};
use csv::StringRecord;
use rand::Rng;
use std::collections::HashMap;
use vstd::prelude::*;

verus! {

broadcast use vstd::std_specs::hash::group_hash_axioms;

/// The ledger of a store: one line per product, keyed by the product's id.
pub type Productos = HashMap<usize, StockProducto>;

/// A store: its ledger and the orders it has reserved stock for and not yet
/// resolved, oldest first.
pub struct Local {
    pub productos_en_stock: Productos,
    pub ordenes_en_progreso: Vec<Orden>,
}

/// What a store holds, as mathematical values.
pub struct EstadoLocal {
    pub productos: Map<usize, StockProducto>,
    pub ordenes: Seq<Orden>,
}

impl EstadoLocal {
    /// Every line of the ledger keeps `bloqueados <= stock`.
    pub open spec fn bien_formado(self) -> bool {
        forall|id: usize| #[trigger]
            self.productos.contains_key(id) ==> self.productos[id].bien_formado()
    }

    /// Outcome of taking in an order: the product must be known and its free
    /// stock must cover the quantity.
    pub open spec fn resultado_agregar(self, orden: Orden) -> Result<(), ErrorLocal> {
        if !self.productos.contains_key(orden.id_producto) {
            Err(ErrorLocal::NoExisteProductoEnLocal)
        } else {
            self.productos[orden.id_producto].resultado_bloquear(orden.cantidad)
        }
    }

    /// The store after taking in an order: on success the quantity is reserved
    /// and the order is appended to the outstanding list; otherwise nothing changes.
    pub open spec fn tras_agregar(self, orden: Orden) -> EstadoLocal {
        if self.resultado_agregar(orden) is Ok {
            EstadoLocal {
                productos: self.productos.insert(
                    orden.id_producto,
                    self.productos[orden.id_producto].tras_bloquear(orden.cantidad),
                ),
                ordenes: self.ordenes.push(orden),
            }
        } else {
            self
        }
    }

    /// Outcome of a walk-in sale.
    pub open spec fn resultado_vender(self, orden: Orden) -> Result<(), ErrorLocal> {
        if !self.productos.contains_key(orden.id_producto) {
            Err(ErrorLocal::NoExisteProductoEnLocal)
        } else {
            self.productos[orden.id_producto].resultado_vender(orden.cantidad)
        }
    }

    /// The store after a walk-in sale: on success the stock of the product goes
    /// down; the outstanding list is never touched.
    pub open spec fn tras_vender(self, orden: Orden) -> EstadoLocal {
        if self.resultado_vender(orden) is Ok {
            EstadoLocal {
                productos: self.productos.insert(
                    orden.id_producto,
                    self.productos[orden.id_producto].tras_vender(orden.cantidad),
                ),
                ..self
            }
        } else {
            self
        }
    }

    /// Whether `indice` picks an outstanding order.
    pub open spec fn elige(self, indice: usize) -> bool {
        indice < self.ordenes.len()
    }

    /// Outcome of resolving the outstanding order at `indice`, by delivery or by
    /// cancellation. An index past the end of the list resolves nothing and is
    /// no error.
    pub open spec fn resultado_resolver(self, indice: usize) -> Result<(), ErrorLocal> {
        if !self.elige(indice) {
            Ok(())
        } else {
            let orden = self.ordenes[indice as int];
            if !self.productos.contains_key(orden.id_producto) {
                Err(ErrorLocal::NoExisteProductoEnLocal)
            } else {
                self.productos[orden.id_producto].resultado_resolver(orden.cantidad)
            }
        }
    }

    /// What the periodic job reports after resolving the outstanding order at
    /// `indice`: how the order was resolved, or why it could not be.
    pub open spec fn resultado_del_job(self, indice: usize, entregar: bool) -> Result<
        Resolucion,
        ErrorLocal,
    > {
        match self.resultado_resolver(indice) {
            Ok(_) => Ok(
                if entregar {
                    Resolucion::Entregada
                } else {
                    Resolucion::Cancelada
                },
            ),
            Err(e) => Err(e),
        }
    }

    /// The store after resolving the outstanding order at `indice`. The order
    /// leaves the list as soon as it is picked, before the ledger is checked:
    /// when the check then fails the order is gone and the ledger is unchanged.
    /// `entregar` tells a delivery from a cancellation.
    pub open spec fn tras_resolver(self, indice: usize, entregar: bool) -> EstadoLocal {
        if !self.elige(indice) {
            self
        } else {
            let orden = self.ordenes[indice as int];
            let ordenes = self.ordenes.remove(indice as int);
            if self.resultado_resolver(indice) is Ok {
                let linea = self.productos[orden.id_producto];
                EstadoLocal {
                    productos: self.productos.insert(
                        orden.id_producto,
                        if entregar {
                            linea.tras_entregar(orden.cantidad)
                        } else {
                            linea.tras_cancelar(orden.cantidad)
                        },
                    ),
                    ordenes,
                }
            } else {
                EstadoLocal { ordenes, ..self }
            }
        }
    }
}

/// What a store does with a datagram.
#[derive(Debug, Clone, Copy, PartialEq, Eq, Structural)]
pub enum Atencion {
    /// The store is playing dead: the datagram gets no answer.
    Ignorar,
    /// The datagram holds this order: the store takes it in and answers with
    /// the outcome.
    Agregar(Orden),
    /// The datagram holds no order: the store answers that it did not
    /// understand.
    NoReconocido,
}

/// Decides what to do with a datagram, given whether the store is taking
/// orders and the order that the datagram holds, if it holds one.
pub fn atender_paquete(aceptar_ordenes: bool, orden: Option<Orden>) -> (r: Atencion)
    ensures
        r == (if !aceptar_ordenes {
            Atencion::Ignorar
        } else {
            match orden {
                Some(o) => Atencion::Agregar(o),
                None => Atencion::NoReconocido,
            }
        }),
{
    if !aceptar_ordenes {
        return Atencion::Ignorar;
    }
    match orden {
        Some(o) => Atencion::Agregar(o),
        None => Atencion::NoReconocido,
    }
}

/// How the periodic job resolved an outstanding order.
#[derive(Debug, Clone, Copy, PartialEq, Eq, Structural)]
pub enum Resolucion {
    /// There was no outstanding order.
    SinOrdenes,
    /// An order was delivered.
    Entregada,
    /// An order was cancelled.
    Cancelada,
}

/// `rand::Rng::gen_range` on the thread's generator `rand::thread_rng()`,
/// over the range from 0 to `maximo`, both included. The contract claims that
/// the number lies in that range, and nothing of which one it is.
#[verifier::external_body]
fn indice_al_azar(maximo: usize) -> (r: usize)
    ensures
        r <= maximo,
{
    rand::thread_rng().gen_range(0..=maximo)
}

/// `rand::random` for a `bool`. Nothing is claimed of which value comes.
#[verifier::external_body]
fn moneda() -> bool {
    rand::random()
}

impl View for Local {
    type V = EstadoLocal;

    open spec fn view(&self) -> EstadoLocal {
        EstadoLocal { productos: self.productos_en_stock@, ordenes: self.ordenes_en_progreso@ }
    }
}

impl Local {
    /// A store with the given ledger and no outstanding orders.
    pub fn new(productos: Productos) -> (r: Local)
        ensures
            r@.productos == productos@,
            r@.ordenes == Seq::<Orden>::empty(),
    {
        Local { productos_en_stock: productos, ordenes_en_progreso: Vec::new() }
    }

    /// Takes in an order from a dispatcher: reserves the quantity of the product
    /// and records the order as outstanding.
    pub fn agregar_orden(&mut self, orden: Orden) -> (r: Result<(), ErrorLocal>)
        ensures
            r == old(self)@.resultado_agregar(orden),
            final(self)@ == old(self)@.tras_agregar(orden),
            old(self)@.bien_formado() ==> final(self)@.bien_formado(),
    {
        let mut producto = match self.productos_en_stock.get(&orden.id_producto) {
            Some(p) => *p,
            None => {
                return Err(ErrorLocal::NoExisteProductoEnLocal);
            },
        };
        match producto.bloquear(orden.cantidad) {
            Ok(()) => {
                self.productos_en_stock.insert(orden.id_producto, producto);
                self.ordenes_en_progreso.push(orden);
                Ok(())
            },
            Err(e) => Err(e),
        }
    }

    /// Sells over the counter the quantity that the order names, if the free
    /// stock covers it.
    pub fn vender(&mut self, orden: Orden) -> (r: Result<(), ErrorLocal>)
        ensures
            r == old(self)@.resultado_vender(orden),
            final(self)@ == old(self)@.tras_vender(orden),
            old(self)@.bien_formado() ==> final(self)@.bien_formado(),
    {
        let mut producto = match self.productos_en_stock.get(&orden.id_producto) {
            Some(p) => *p,
            None => {
                return Err(ErrorLocal::NoExisteProductoEnLocal);
            },
        };
        match producto.vender(orden.cantidad) {
            Ok(()) => {
                self.productos_en_stock.insert(orden.id_producto, producto);
                Ok(())
            },
            Err(e) => Err(e),
        }
    }

    /// Resolves the outstanding order at `indice`: delivers it when `entregar`
    /// holds, cancels it otherwise.
    pub fn resolver_orden(&mut self, indice: usize, entregar: bool) -> (r: Result<(), ErrorLocal>)
        ensures
            r == old(self)@.resultado_resolver(indice),
            final(self)@ == old(self)@.tras_resolver(indice, entregar),
            old(self)@.bien_formado() ==> final(self)@.bien_formado(),
    {
        if indice >= self.ordenes_en_progreso.len() {
            return Ok(());
        }
        let orden = self.ordenes_en_progreso.remove(indice);
        let mut producto = match self.productos_en_stock.get(&orden.id_producto) {
            Some(p) => *p,
            None => {
                return Err(ErrorLocal::NoExisteProductoEnLocal);
            },
        };
        let resultado = if entregar {
            producto.entregar(orden.cantidad)
        } else {
            producto.cancelar(orden.cantidad)
        };
        match resultado {
            Ok(()) => {
                self.productos_en_stock.insert(orden.id_producto, producto);
                Ok(())
            },
            Err(e) => Err(e),
        }
    }

    /// The periodic job: picks an outstanding order at random and, at random
    /// too, delivers or cancels it. With no outstanding order it does nothing.
    pub fn resolver_orden_al_azar(&mut self) -> (r: Result<Resolucion, ErrorLocal>)
        ensures
            old(self)@.ordenes.len() == 0 ==> final(self)@ == old(self)@ && r == Ok::<
                Resolucion,
                ErrorLocal,
            >(Resolucion::SinOrdenes),
            old(self)@.ordenes.len() > 0 ==> exists|indice: usize, entregar: bool|
                indice < old(self)@.ordenes.len() && r == old(self)@.resultado_del_job(
                    indice,
                    entregar,
                ) && final(self)@ == #[trigger] old(self)@.tras_resolver(indice, entregar),
            old(self)@.bien_formado() ==> final(self)@.bien_formado(),
    {
        if self.ordenes_en_progreso.len() == 0 {
            return Ok(Resolucion::SinOrdenes);
        }
        let entregar = moneda();
        let indice_maximo_ordenes = self.ordenes_en_progreso.len() - 1;
        let indice = indice_al_azar(indice_maximo_ordenes);
        match self.resolver_orden(indice, entregar) {
            Ok(()) => Ok(
                if entregar {
                    Resolucion::Entregada
                } else {
                    Resolucion::Cancelada
                },
            ),
            Err(e) => Err(e),
        }
    }

    /// Delivers the outstanding order that `rng` picks: the stock and the
    /// reserved amount of its product go down by its quantity.
    pub fn entregar_orden(&mut self, rng: impl Fn() -> usize) -> (r: Result<(), ErrorLocal>)
        requires
            call_requires(rng, ()),
        ensures
            exists|indice: usize|
                call_ensures(rng, (), indice) && r == old(self)@.resultado_resolver(indice)
                    && final(self)@ == #[trigger] old(self)@.tras_resolver(indice, true),
            old(self)@.bien_formado() ==> final(self)@.bien_formado(),
    {
        let indice_random = rng();
        self.resolver_orden(indice_random, true)
    }

    /// Cancels the outstanding order that `rng` picks: the reserved amount of
    /// its product goes down by its quantity and the stock stays.
    pub fn cancelar_orden(&mut self, rng: impl Fn() -> usize) -> (r: Result<(), ErrorLocal>)
        requires
            call_requires(rng, ()),
        ensures
            exists|indice: usize|
                call_ensures(rng, (), indice) && r == old(self)@.resultado_resolver(indice)
                    && final(self)@ == #[trigger] old(self)@.tras_resolver(indice, false),
            old(self)@.bien_formado() ==> final(self)@.bien_formado(),
    {
        let indice_random = rng();
        self.resolver_orden(indice_random, false)
    }
}

/// The ledger that a run of records describes, on top of `inicial`: each
/// record is a line, a later line for a product replaces an earlier one, and
/// the first record that cannot be read ends the run.
pub open spec fn productos_de(
    registros: Seq<StringRecord>,
    inicial: Map<usize, StockProducto>,
) -> Map<usize, StockProducto>
    decreases registros.len(),
{
    if registros.len() == 0 {
        inicial
    } else {
        match stock_de_campos(campos(registros[0])) {
            Ok(p) => productos_de(registros.skip(1), inicial.insert(p.id_producto, p)),
            Err(_) => inicial,
        }
    }
}

/// One record further: what `productos_de` makes of the records from
/// position `i` on, in terms of what it makes of those after it.
proof fn lema_productos_de_paso(
    registros: Seq<StringRecord>,
    i: int,
    inicial: Map<usize, StockProducto>,
)
    requires
        0 <= i < registros.len(),
    ensures
        productos_de(registros.skip(i), inicial) == (match stock_de_campos(campos(registros[i])) {
            Ok(p) => productos_de(registros.skip(i + 1), inicial.insert(p.id_producto, p)),
            Err(_) => inicial,
        }),
{
    let resto = registros.skip(i);
    assert(resto.len() > 0);
    assert(resto[0] == registros[i]);
    assert(resto.skip(1) =~= registros.skip(i + 1));
}

/// Sets a store up from the records of its stock: the lines up to the first
/// record that cannot be read, and no outstanding orders.
pub fn instanciar_local(registros: &Vec<StringRecord>) -> (r: Local)
    ensures
        r@.productos == productos_de(registros@, Map::<usize, StockProducto>::empty()),
        r@.ordenes == Seq::<Orden>::empty(),
        r@.bien_formado(),
{
    let ghost todos = productos_de(registros@, Map::<usize, StockProducto>::empty());
    let mut productos: Productos = HashMap::new();
    let mut i: usize = 0;
    assert(registros@.skip(0) =~= registros@);
    while i < registros.len()
        invariant
            i <= registros@.len(),
            todos == productos_de(registros@, Map::<usize, StockProducto>::empty()),
            todos == productos_de(registros@.skip(i as int), productos@),
            forall|id: usize| #[trigger]
                productos@.contains_key(id) ==> productos@[id].bien_formado(),
        decreases registros@.len() - i,
    {
        proof {
            lema_productos_de_paso(registros@, i as int, productos@);
        }
        match StockProducto::de_registro(&registros[i]) {
            Ok(producto) => {
                productos.insert(producto.id_producto, producto);
            },
            Err(_) => {
                return Local::new(productos);
            },
        }
        i = i + 1;
    }
    assert(registros@.skip(i as int).len() == 0);
    Local::new(productos)
}

} // verus!
