use crate::common::mensaje_protocolo::TipoDeMensaje;
use vstd::prelude::*;

verus! {

broadcast use vstd::string::group_string_axioms;

/// Why one attempt to place an order with a store came to nothing.
#[derive(Debug, Clone, Copy, PartialEq, Eq, Structural)]
pub enum ErrorEcommerce {
    /// No reply came within the time allowed.
    SocketTimeOut,
}

impl ErrorEcommerce {
    /// The text shown to an operator for this error.
    pub open spec fn texto(self) -> Seq<char> {
        "Timeout en socket recv"@
    }

    /// Human-readable description of the error.
    pub fn descripcion(&self) -> (r: &'static str)
        ensures
            r@ == self.texto(),
    {
        match self {
            ErrorEcommerce::SocketTimeOut => "Timeout en socket recv",
        }
    }
}

/// A distance at which no store is ever chosen.
pub const SIN_ALCANCE: u64 = 0xffff_ffff_ffff_ffff;

/// A store that may take an order. `distancia` stands for how far the store
/// is from where the order goes: a smaller number is a nearer store.
#[derive(Debug, Clone, Copy, PartialEq, Eq, Structural)]
pub struct Candidato {
    pub id: usize,
    pub distancia: u64,
}

/// Whether the store at position `k` can still be tried: it has not been
/// visited and it is within reach.
pub open spec fn elegible(candidatos: Seq<Candidato>, visitados: Seq<usize>, k: int) -> bool {
    &&& 0 <= k < candidatos.len()
    &&& !visitados.contains(candidatos[k].id)
    &&& candidatos[k].distancia < SIN_ALCANCE
}

/// Whether, among the first `n` stores, the one at position `k` is the
/// nearest that can still be tried, and the first of those that are as near.
pub open spec fn es_el_mas_cercano_hasta(
    candidatos: Seq<Candidato>,
    visitados: Seq<usize>,
    n: int,
    k: int,
) -> bool {
    &&& k < n
    &&& elegible(candidatos, visitados, k)
    &&& forall|j: int|
        j < n && #[trigger] elegible(candidatos, visitados, j) ==> candidatos[k].distancia
            <= candidatos[j].distancia
    &&& forall|j: int|
        j < k && #[trigger] elegible(candidatos, visitados, j) ==> candidatos[k].distancia
            < candidatos[j].distancia
}

/// Whether the store at position `k` is the nearest that can still be tried,
/// and the first of those that are as near.
pub open spec fn es_el_mas_cercano(
    candidatos: Seq<Candidato>,
    visitados: Seq<usize>,
    k: int,
) -> bool {
    es_el_mas_cercano_hasta(candidatos, visitados, candidatos.len() as int, k)
}

/// The id of the store to try next: the nearest that can still be tried, or 0
/// when there is none.
pub open spec fn seleccionado(candidatos: Seq<Candidato>, visitados: Seq<usize>) -> usize {
    if exists|k: int| es_el_mas_cercano(candidatos, visitados, k) {
        candidatos[choose|k: int| es_el_mas_cercano(candidatos, visitados, k)].id
    } else {
        0
    }
}

/// At most one position is the nearest.
pub proof fn lema_mas_cercano_unico(
    candidatos: Seq<Candidato>,
    visitados: Seq<usize>,
    k1: int,
    k2: int,
)
    requires
        es_el_mas_cercano(candidatos, visitados, k1),
        es_el_mas_cercano(candidatos, visitados, k2),
    ensures
        k1 == k2,
{
    if k1 < k2 {
        assert(elegible(candidatos, visitados, k1));
    } else if k2 < k1 {
        assert(elegible(candidatos, visitados, k2));
    }
}

/// Whether `id` is among `visitados`.
pub fn fue_visitado(visitados: &[usize], id: usize) -> (r: bool)
    ensures
        r == visitados@.contains(id),
{
    let mut i: usize = 0;
    while i < visitados.len()
        invariant
            i <= visitados@.len(),
            forall|j: int| 0 <= j < i ==> visitados@[j] != id,
        decreases visitados@.len() - i,
    {
        if visitados[i] == id {
            return true;
        }
        i = i + 1;
    }
    false
}

/// The position of the nearest store that can still be tried, if there is one.
pub fn indice_mas_cercano(candidatos: &[Candidato], visitados: &[usize]) -> (r: Option<usize>)
    ensures
        match r {
            Some(k) => es_el_mas_cercano(candidatos@, visitados@, k as int),
            None => forall|j: int| !elegible(candidatos@, visitados@, j),
        },
{
    let mut mejor: Option<usize> = None;
    let mut distancia_minima: u64 = SIN_ALCANCE;
    let mut i: usize = 0;
    while i < candidatos.len()
        invariant
            i <= candidatos@.len(),
            match mejor {
                Some(k) => es_el_mas_cercano_hasta(candidatos@, visitados@, i as int, k as int)
                    && distancia_minima == candidatos@[k as int].distancia,
                None => distancia_minima == SIN_ALCANCE && forall|j: int|
                    j < i ==> !elegible(candidatos@, visitados@, j),
            },
        decreases candidatos@.len() - i,
    {
        let candidato = candidatos[i];
        if !fue_visitado(visitados, candidato.id) && candidato.distancia < distancia_minima {
            distancia_minima = candidato.distancia;
            mejor = Some(i);
        }
        i = i + 1;
    }
    mejor
}

/// Picks the store to try next: the nearest of those not yet visited, the
/// first of them in the list when several are as near. Returns its id, or 0
/// when every store has been visited or is out of reach.
pub fn seleccionar_local_mas_cercano(candidatos: &[Candidato], visitados: &[usize]) -> (r: usize)
    ensures
        r == seleccionado(candidatos@, visitados@),
        forall|k: int| es_el_mas_cercano(candidatos@, visitados@, k) ==> r == candidatos@[k].id,
        (forall|j: int| !elegible(candidatos@, visitados@, j)) ==> r == 0,
{
    match indice_mas_cercano(candidatos, visitados) {
        Some(k) => {
            proof {
                let elegido = choose|j: int| es_el_mas_cercano(candidatos@, visitados@, j);
                lema_mas_cercano_unico(candidatos@, visitados@, k as int, elegido);
                assert forall|j: int| es_el_mas_cercano(candidatos@, visitados@, j) implies j
                    == k by {
                    lema_mas_cercano_unico(candidatos@, visitados@, k as int, j);
                }
            }
            candidatos[k].id
        },
        None => 0,
    }
}

/// The bytes of the reply by which a store takes an order in.
pub open spec fn ficha_aceptacion() -> Seq<u8> {
    vstd::utf8::encode_utf8(TipoDeMensaje::OrdenAceptada.nombre())
}

/// Whether an attempt ended with the store taking the order in: a reply
/// came, and it is the accepting one.
pub open spec fn acepta(resultado: Result<&[u8], ErrorEcommerce>) -> bool {
    match resultado {
        Ok(respuesta) => respuesta@ == ficha_aceptacion(),
        Err(_) => false,
    }
}

/// Whether a store's reply says that it took the order in.
pub fn es_aceptacion(respuesta: &[u8]) -> (r: bool)
    ensures
        r == (respuesta@ == ficha_aceptacion()),
{
    let ficha = TipoDeMensaje::OrdenAceptada.value().as_bytes();
    if respuesta.len() != ficha.len() {
        return false;
    }
    let mut i: usize = 0;
    while i < ficha.len()
        invariant
            i <= ficha@.len(),
            ficha@.len() == respuesta@.len(),
            ficha@ == ficha_aceptacion(),
            forall|j: int| 0 <= j < i ==> respuesta@[j] == ficha@[j],
        decreases ficha@.len() - i,
    {
        if respuesta[i] != ficha[i] {
            assert(respuesta@[i as int] != ficha@[i as int]);
            return false;
        }
        i = i + 1;
    }
    assert(respuesta@ =~= ficha@);
    true
}

/// The progress of placing one order: the stores that were tried in vain, and
/// whether a store has taken the order in.
pub struct Despacho {
    pub locales_visitados: Vec<usize>,
    pub orden_aceptada: bool,
}

impl Despacho {
    /// Whether another store is to be tried, with `n` stores in all.
    pub open spec fn en_curso(self, n: nat) -> bool {
        !self.orden_aceptada && self.locales_visitados@.len() < n
    }

    /// Nothing tried yet.
    pub fn new() -> (r: Despacho)
        ensures
            r.locales_visitados@ == Seq::<usize>::empty(),
            !r.orden_aceptada,
    {
        Despacho { locales_visitados: Vec::new(), orden_aceptada: false }
    }

    /// The store to send the order to next. There is none once a store has
    /// accepted, or once as many stores have been tried as there are: the
    /// order is then dropped.
    pub fn siguiente_local(&self, candidatos: &[Candidato]) -> (r: Option<usize>)
        ensures
            r == (if self.en_curso(candidatos@.len()) {
                Some(seleccionado(candidatos@, self.locales_visitados@))
            } else {
                None
            }),
    {
        if !self.orden_aceptada && self.locales_visitados.len() < candidatos.len() {
            Some(seleccionar_local_mas_cercano(candidatos, self.locales_visitados.as_slice()))
        } else {
            None
        }
    }

    /// Takes note of how the attempt with store `local` ended. Only the
    /// accepting reply ends the search; any other reply, and any failure, marks
    /// the store as visited.
    pub fn registrar(&mut self, local: usize, resultado: Result<&[u8], ErrorEcommerce>)
        ensures
            acepta(resultado) ==> final(self).orden_aceptada && final(self).locales_visitados@
                == old(self).locales_visitados@,
            !acepta(resultado) ==> final(self).orden_aceptada == old(self).orden_aceptada
                && final(self).locales_visitados@ == old(self).locales_visitados@.push(local),
    {
        let aceptada = match resultado {
            Ok(respuesta) => es_aceptacion(respuesta),
            Err(_) => false,
        };
        if aceptada {
            self.orden_aceptada = true;
        } else {
            self.locales_visitados.push(local);
        }
    }
}

} // verus!
