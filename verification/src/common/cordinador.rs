use crate::common::mensaje_protocolo::TipoDeMensaje;
use std_semaphore::Semaphore;
use vstd::prelude::*;

verus! {

/// The counting semaphore of `std_semaphore`. Nothing inside it is visible here.
#[verifier::external_type_specification]
#[verifier::external_body]
pub struct ExSemaphore(std_semaphore::Semaphore);

/// `std_semaphore::Semaphore::new`: a semaphore that starts with `count`
/// resources. The contract claims that it was made with that many.
pub assume_specification[ std_semaphore::Semaphore::new ](count: isize) -> (r: Semaphore)
    ensures
        recursos_iniciales(r) == count,
;

/// `std_semaphore::Semaphore::acquire`: takes one resource, waiting until there
/// is one. Nothing is claimed of it: when it returns depends on other holders.
pub assume_specification[ std_semaphore::Semaphore::acquire ](semaforo: &Semaphore)
;

/// `std_semaphore::Semaphore::release`: gives one resource back and wakes a
/// waiter. It adds one to the count, which must not be at its largest: only a
/// semaphore made with one resource at most is let in, whose count no run of
/// releases that a machine performs can bring there. Nothing is claimed of it.
pub assume_specification[ std_semaphore::Semaphore::release ](semaforo: &Semaphore)
    requires
        recursos_iniciales(*semaforo) <= 1,
;

/// Where one connection of the leader stands in the permit handshake.
#[derive(Debug, Clone, Copy, PartialEq, Eq, Structural)]
pub enum EstadoConexion {
    /// The follower has not asked for the permit.
    EsperandoPedido,
    /// The follower holds the permit and has been told the cursor.
    EsperandoFin,
    /// The exchange is over.
    Terminada,
}

/// What a connection delivered.
#[derive(Debug, Clone, Copy, PartialEq, Eq, Structural)]
pub enum Evento {
    /// A whole message of the given kind.
    Recibido(TipoDeMensaje),
    /// The read failed.
    Falla,
}

/// What the leader does with the shared permit and cursor in answer to an event.
#[derive(Debug, Clone, Copy, PartialEq, Eq, Structural)]
pub enum Accion {
    /// Nothing.
    Ninguna,
    /// Take the permit, waiting for it if another connection holds it, and
    /// then tell the follower the cursor as it stands at that moment.
    Conceder,
    /// Advance the cursor by one and give the permit back.
    AvanzarYLiberar,
    /// Give the permit back and leave the cursor alone.
    Liberar,
}

/// The state of a connection after an event.
pub open spec fn estado_siguiente(estado: EstadoConexion, evento: Evento) -> EstadoConexion {
    match estado {
        EstadoConexion::EsperandoPedido => match evento {
            Evento::Recibido(TipoDeMensaje::QuieroMandarOrdenes) => EstadoConexion::EsperandoFin,
            Evento::Recibido(_) => EstadoConexion::EsperandoPedido,
            Evento::Falla => EstadoConexion::Terminada,
        },
        EstadoConexion::EsperandoFin => match evento {
            Evento::Recibido(TipoDeMensaje::Desconexion) => EstadoConexion::Terminada,
            Evento::Recibido(_) => EstadoConexion::EsperandoPedido,
            Evento::Falla => EstadoConexion::Terminada,
        },
        EstadoConexion::Terminada => EstadoConexion::Terminada,
    }
}

/// What the leader does in answer to an event on a connection.
pub open spec fn accion_de(estado: EstadoConexion, evento: Evento) -> Accion {
    match estado {
        EstadoConexion::EsperandoPedido => match evento {
            Evento::Recibido(TipoDeMensaje::QuieroMandarOrdenes) => Accion::Conceder,
            _ => Accion::Ninguna,
        },
        EstadoConexion::EsperandoFin => match evento {
            Evento::Recibido(TipoDeMensaje::TermineDeMandarOrdenes) => Accion::AvanzarYLiberar,
            _ => Accion::Liberar,
        },
        EstadoConexion::Terminada => Accion::Ninguna,
    }
}

/// One step of a connection's handshake: the state it moves to and what the
/// leader does with the permit and the cursor.
pub fn transicion(estado: EstadoConexion, evento: Evento) -> (r: (EstadoConexion, Accion))
    ensures
        r.0 == estado_siguiente(estado, evento),
        r.1 == accion_de(estado, evento),
{
    match estado {
        EstadoConexion::EsperandoPedido => match evento {
            Evento::Recibido(TipoDeMensaje::QuieroMandarOrdenes) => (
                EstadoConexion::EsperandoFin,
                Accion::Conceder,
            ),
            Evento::Recibido(_) => (EstadoConexion::EsperandoPedido, Accion::Ninguna),
            Evento::Falla => (EstadoConexion::Terminada, Accion::Ninguna),
        },
        EstadoConexion::EsperandoFin => match evento {
            Evento::Recibido(TipoDeMensaje::TermineDeMandarOrdenes) => (
                EstadoConexion::EsperandoPedido,
                Accion::AvanzarYLiberar,
            ),
            Evento::Recibido(TipoDeMensaje::Desconexion) => (
                EstadoConexion::Terminada,
                Accion::Liberar,
            ),
            Evento::Recibido(_) => (EstadoConexion::EsperandoPedido, Accion::Liberar),
            Evento::Falla => (EstadoConexion::Terminada, Accion::Liberar),
        },
        EstadoConexion::Terminada => (EstadoConexion::Terminada, Accion::Ninguna),
    }
}

/// What all connections of the leader share, as mathematical values: the
/// cursor, and whether a connection holds the permit.
pub struct EstadoCordinador {
    pub cursor: i32,
    pub tomado: bool,
}

impl EstadoCordinador {
    /// Whether the action can be carried out now. A grant needs the permit to
    /// be free, and the two actions that give it back need it to be held; the
    /// cursor cannot advance past the largest number it can hold.
    pub open spec fn admite(self, accion: Accion) -> bool {
        match accion {
            Accion::Ninguna => true,
            Accion::Conceder => !self.tomado,
            Accion::AvanzarYLiberar => self.tomado && self.cursor < i32::MAX,
            Accion::Liberar => self.tomado,
        }
    }

    /// The shared state after the action: a grant takes the permit; the end
    /// of a batch advances the cursor by one and gives the permit back; a
    /// release gives it back and leaves the cursor alone.
    pub open spec fn tras(self, accion: Accion) -> EstadoCordinador {
        match accion {
            Accion::Ninguna => self,
            Accion::Conceder => EstadoCordinador { tomado: true, ..self },
            Accion::AvanzarYLiberar => EstadoCordinador {
                tomado: false,
                cursor: (self.cursor + 1) as i32,
            },
            Accion::Liberar => EstadoCordinador { tomado: false, ..self },
        }
    }

    /// The cursor that a grant tells the follower; nothing for other actions.
    pub open spec fn concedido(self, accion: Accion) -> Option<i32> {
        if accion == Accion::Conceder {
            Some(self.cursor)
        } else {
            None
        }
    }
}

/// What all connections of the leader share: the permit, of which there is
/// one, whether a connection holds it, and the cursor, which counts the
/// batches that were sent in full.
pub struct Cordinador {
    permiso: Semaphore,
    ocupado: bool,
    pub cursor: i32,
}

impl View for Cordinador {
    type V = EstadoCordinador;

    closed spec fn view(&self) -> EstadoCordinador {
        EstadoCordinador { cursor: self.cursor, tomado: self.ocupado }
    }
}

impl Cordinador {
    #[verifier::type_invariant]
    spec fn un_solo_permiso(self) -> bool {
        recursos_iniciales(self.permiso) == 1
    }

    /// The number of resources that the permit was made with.
    pub closed spec fn permisos(self) -> isize {
        recursos_iniciales(self.permiso)
    }

    /// The shared state of a fresh leader: the permit is made with one
    /// resource and is free, and the cursor is at the start. The identity
    /// plays no part.
    pub fn new(id: u32) -> (r: Cordinador)
        ensures
            r@ == (EstadoCordinador { cursor: 0, tomado: false }),
            r.permisos() == 1,
    {
        Cordinador { permiso: Semaphore::new(1), ocupado: false, cursor: 0 }
    }

    /// Where the cursor stands.
    pub fn cursor_actual(&self) -> (r: i32)
        ensures
            r == self@.cursor,
    {
        self.cursor
    }

    /// Whether a connection holds the permit.
    pub fn permiso_tomado(&self) -> (r: bool)
        ensures
            r == self@.tomado,
    {
        self.ocupado
    }

    /// Takes the permit, which must be free.
    pub fn get_permso(&mut self)
        requires
            !old(self)@.tomado,
        ensures
            final(self)@ == (EstadoCordinador { tomado: true, ..old(self)@ }),
    {
        proof {
            use_type_invariant(&*self);
        }
        self.permiso.acquire();
        self.ocupado = true;
    }

    /// Gives the permit back, which must be held.
    pub fn release_permiso(&mut self)
        requires
            old(self)@.tomado,
        ensures
            final(self)@ == (EstadoCordinador { tomado: false, ..old(self)@ }),
    {
        proof {
            use_type_invariant(&*self);
        }
        self.ocupado = false;
        self.permiso.release();
    }

    /// Whether the action can be carried out now.
    pub fn puede_ejecutar(&self, accion: Accion) -> (r: bool)
        ensures
            r == self@.admite(accion),
    {
        match accion {
            Accion::Ninguna => true,
            Accion::Conceder => !self.ocupado,
            Accion::AvanzarYLiberar => self.ocupado && self.cursor < i32::MAX,
            Accion::Liberar => self.ocupado,
        }
    }

    /// Carries out an action on the permit and the cursor. A grant returns
    /// the cursor to tell the follower, read once the permit is held.
    pub fn ejecutar(&mut self, accion: Accion) -> (r: Option<i32>)
        requires
            old(self)@.admite(accion),
        ensures
            final(self)@ == old(self)@.tras(accion),
            r == old(self)@.concedido(accion),
    {
        proof {
            use_type_invariant(&*self);
        }
        match accion {
            Accion::Ninguna => None,
            Accion::Conceder => {
                self.get_permso();
                Some(self.cursor)
            },
            Accion::AvanzarYLiberar => {
                self.cursor = self.cursor + 1;
                self.release_permiso();
                None
            },
            Accion::Liberar => {
                self.release_permiso();
                None
            },
        }
    }
}

/// One step of the leader as a whole: an event on one of its connections.
pub struct Paso {
    pub conexion: int,
    pub evento: Evento,
}

/// The leader as a whole: the state of each connection, which of them holds
/// the permit, and the cursor.
pub struct Coordinacion {
    pub estados: Seq<EstadoConexion>,
    pub titular: Option<int>,
    pub cursor: int,
}

impl Coordinacion {
    /// A leader with `n` connections that have asked for nothing yet.
    pub open spec fn inicial(n: nat) -> Coordinacion {
        Coordinacion {
            estados: Seq::new(n, |i: int| EstadoConexion::EsperandoPedido),
            titular: None,
            cursor: 0,
        }
    }

    /// The connection that holds the permit is the one, and the only one,
    /// that has been granted it and has not finished.
    pub open spec fn invariante(self) -> bool {
        &&& self.titular is Some ==> 0 <= self.titular.unwrap() < self.estados.len()
        &&& forall|i: int|
            0 <= i < self.estados.len() ==> (#[trigger] self.estados[i]
                == EstadoConexion::EsperandoFin <==> self.titular == Some(i))
    }

    /// Whether the step can happen now. A follower's request is answered only
    /// once the permit is free: until then its connection waits.
    pub open spec fn habilitado(self, p: Paso) -> bool {
        &&& 0 <= p.conexion < self.estados.len()
        &&& accion_de(self.estados[p.conexion], p.evento) == Accion::Conceder
            ==> self.titular is None
    }

    /// What the leader does in this step.
    pub open spec fn accion(self, p: Paso) -> Accion {
        accion_de(self.estados[p.conexion], p.evento)
    }

    /// The leader after a step.
    pub open spec fn tras(self, p: Paso) -> Coordinacion {
        let a = self.accion(p);
        Coordinacion {
            estados: self.estados.update(
                p.conexion,
                estado_siguiente(self.estados[p.conexion], p.evento),
            ),
            titular: match a {
                Accion::Ninguna => self.titular,
                Accion::Conceder => Some(p.conexion),
                Accion::AvanzarYLiberar => None,
                Accion::Liberar => None,
            },
            cursor: if a == Accion::AvanzarYLiberar {
                self.cursor + 1
            } else {
                self.cursor
            },
        }
    }

    /// Whether each step of a history can happen when its turn comes.
    pub open spec fn admite(self, pasos: Seq<Paso>) -> bool
        decreases pasos.len(),
    {
        pasos.len() > 0 ==> self.admite(pasos.drop_last()) && self.tras_todos(
            pasos.drop_last(),
        ).habilitado(pasos.last())
    }

    /// The leader after a history of steps.
    pub open spec fn tras_todos(self, pasos: Seq<Paso>) -> Coordinacion
        decreases pasos.len(),
    {
        if pasos.len() == 0 {
            self
        } else {
            self.tras_todos(pasos.drop_last()).tras(pasos.last())
        }
    }

    /// How many steps of a history made the leader do `a`.
    pub open spec fn cuenta(self, pasos: Seq<Paso>, a: Accion) -> nat
        decreases pasos.len(),
    {
        if pasos.len() == 0 {
            0
        } else {
            let antes = self.cuenta(pasos.drop_last(), a);
            if self.tras_todos(pasos.drop_last()).accion(pasos.last()) == a {
                antes + 1
            } else {
                antes
            }
        }
    }

    /// 1 while a connection holds the permit, 0 while it is free.
    pub open spec fn ocupado(self) -> nat {
        if self.titular is Some {
            1
        } else {
            0
        }
    }
}

/// No two connections hold the permit at once.
pub proof fn lema_exclusion_mutua(s: Coordinacion, i: int, j: int)
    requires
        s.invariante(),
        0 <= i < s.estados.len(),
        0 <= j < s.estados.len(),
        s.estados[i] == EstadoConexion::EsperandoFin,
        s.estados[j] == EstadoConexion::EsperandoFin,
    ensures
        i == j,
{
}

/// A fresh leader holds the invariant.
pub proof fn lema_inicial_invariante(n: nat)
    ensures
        Coordinacion::inicial(n).invariante(),
{
}

/// A step keeps the invariant. The cursor goes up by exactly one when the
/// holder of the permit reports that it is done, and stays as it is on every
/// other step: on a disconnection, on any other message and on a failed read.
pub proof fn lema_paso(s: Coordinacion, p: Paso)
    requires
        s.invariante(),
        s.habilitado(p),
    ensures
        s.tras(p).invariante(),
        s.tras(p).estados.len() == s.estados.len(),
        s.tras(p).cursor == s.cursor + 1 <==> s.estados[p.conexion] == EstadoConexion::EsperandoFin
            && p.evento == Evento::Recibido(TipoDeMensaje::TermineDeMandarOrdenes),
        s.tras(p).cursor != s.cursor + 1 ==> s.tras(p).cursor == s.cursor,
        s.accion(p) == Accion::Conceder ==> s.titular is None && s.tras(p).titular == Some(
            p.conexion,
        ),
{
    let t = s.tras(p);
    assert forall|i: int| 0 <= i < t.estados.len() implies (#[trigger] t.estados[i]
        == EstadoConexion::EsperandoFin <==> t.titular == Some(i)) by {
        if i != p.conexion {
            assert(t.estados[i] == s.estados[i]);
        }
    }
}

/// Over any history that starts from a state with the invariant: the
/// invariant holds at the end; the cursor has moved by the number of batches
/// reported done; and every grant but the one still held has been paired with
/// a release, so that the grants come one after the other.
pub proof fn lema_historia(s: Coordinacion, pasos: Seq<Paso>)
    requires
        s.invariante(),
        s.admite(pasos),
    ensures
        s.tras_todos(pasos).invariante(),
        s.tras_todos(pasos).estados.len() == s.estados.len(),
        s.tras_todos(pasos).cursor == s.cursor + s.cuenta(pasos, Accion::AvanzarYLiberar),
        s.ocupado() + s.cuenta(pasos, Accion::Conceder) == s.tras_todos(pasos).ocupado()
            + s.cuenta(pasos, Accion::AvanzarYLiberar) + s.cuenta(pasos, Accion::Liberar),
    decreases pasos.len(),
{
    if pasos.len() > 0 {
        let antes = pasos.drop_last();
        lema_historia(s, antes);
        let m = s.tras_todos(antes);
        lema_paso(m, pasos.last());
    }
}

/// Whatever step the leader as a whole can take, its shared state admits the
/// action of that step, as long as that state agrees with the model on who
/// holds the permit and the cursor has room to advance; and after the action
/// the two agree again.
pub proof fn lema_estado_sigue_al_modelo(s: Coordinacion, p: Paso, c: EstadoCordinador)
    requires
        s.invariante(),
        s.habilitado(p),
        c.tomado == (s.titular is Some),
        c.cursor == s.cursor,
        c.cursor < i32::MAX,
    ensures
        c.admite(s.accion(p)),
        c.tras(s.accion(p)).tomado == (s.tras(p).titular is Some),
        c.tras(s.accion(p)).cursor == s.tras(p).cursor,
{
}

/// The number of resources that a semaphore was made with. It says nothing
/// of how many of them are free at a given moment.
pub uninterp spec fn recursos_iniciales(semaforo: Semaphore) -> isize;

} // verus!
