use crate::common::mensaje_protocolo::{
    decodificacion, es_centinela, Conexion, Mensaje, MensajeProtocolo, TipoDeMensaje,
    CONTENIDO_MAXIMO, LECTURA_MAXIMA,
};
use crate::common::socket::TipodeError;
use vstd::prelude::*;

verus! {

/// Who the peer of a connection is, as far as it has said. The peer says it
/// once, in the first message, and what it said stays.
pub struct Identidad {
    pub detalles_conexion: Option<Conexion>,
}

impl Identidad {
    /// The identity of a peer that has said nothing yet.
    pub fn new() -> (r: Identidad)
        ensures
            r.detalles_conexion is None,
    {
        Identidad { detalles_conexion: None }
    }

    /// Records who the peer is, unless it is known already.
    pub fn set_detalles_conexion(&mut self, conexion: Conexion)
        ensures
            final(self).detalles_conexion == (if old(self).detalles_conexion is None {
                Some(conexion)
            } else {
                old(self).detalles_conexion
            }),
    {
        if self.detalles_conexion.is_none() {
            self.detalles_conexion = Some(conexion);
        }
    }

    pub fn get_detalles_conexion(&self) -> (r: &Option<Conexion>)
        ensures
            *r == self.detalles_conexion,
    {
        &self.detalles_conexion
    }
}

/// The payload in which the first message of a connection names the peer:
/// that of a connection record, and of no other kind of message.
pub fn contenido_de_identidad(primero: &MensajeProtocolo) -> (r: Option<&Vec<u8>>)
    ensures
        primero@.tipo == TipoDeMensaje::Conexion ==> r is Some && r.unwrap()@
            == primero@.contenido,
        primero@.tipo != TipoDeMensaje::Conexion ==> r is None,
{
    match primero.get_tipo_de_mensaje() {
        TipoDeMensaje::Conexion => Some(primero.get_contenido()),
        _ => None,
    }
}

/// A message that is being taken off a connection: its header has been read
/// and its payload arrives in pieces.
pub struct LecturaEnCurso {
    tipo: TipoDeMensaje,
    tamanio: u8,
    recibidos: Vec<u8>,
}

impl LecturaEnCurso {
    #[verifier::type_invariant]
    spec fn coherente(self) -> bool {
        self.recibidos@.len() <= self.tamanio
    }

    /// The kind that the header named.
    pub closed spec fn tipo(self) -> TipoDeMensaje {
        self.tipo
    }

    /// The payload length that the header announced.
    pub closed spec fn anunciados(self) -> nat {
        self.tamanio as nat
    }

    /// The part of the payload that has arrived.
    pub closed spec fn recibidos(self) -> Seq<u8> {
        self.recibidos@
    }

    /// How many bytes of the payload are still to come.
    pub open spec fn pendientes(self) -> int {
        self.anunciados() - self.recibidos().len()
    }

    /// Starts taking in a message from the two bytes of its header. The header
    /// of two zero bytes fails the read, as a closed connection does; any
    /// other header whose first byte names no kind is an unknown kind.
    pub fn iniciar(tipo: u8, tamanio: u8) -> (r: Result<LecturaEnCurso, TipodeError>)
        ensures
            tipo == 0 && tamanio == 0 ==> (r matches Err(e) && e == TipodeError::ErrorLectura),
            !(tipo == 0 && tamanio == 0) ==> match TipoDeMensaje::de_ordinal(tipo) {
                Some(t) => r is Ok && r.unwrap().tipo() == t && r.unwrap().anunciados() == tamanio
                    && r.unwrap().recibidos() == Seq::<u8>::empty(),
                None => (r matches Err(e) && e == TipodeError::ErrorTipoDeMensaje),
            },
    {
        if tipo == 0 && tamanio == 0 {
            return Err(TipodeError::ErrorLectura);
        }
        match TipoDeMensaje::new_tipo_de_mensaje(tipo) {
            Ok(t) => Ok(LecturaEnCurso { tipo: t, tamanio, recibidos: Vec::new() }),
            Err(e) => Err(e),
        }
    }

    /// How many bytes of the payload are still to come.
    pub fn faltan(&self) -> (r: usize)
        ensures
            r == self.pendientes(),
            r <= CONTENIDO_MAXIMO,
    {
        proof {
            use_type_invariant(self);
        }
        self.tamanio as usize - self.recibidos.len()
    }

    /// How many bytes to ask of the connection next: what is still to come,
    /// but never more than one read may bring.
    pub fn pedido(&self) -> (r: usize)
        ensures
            r == if self.pendientes() <= LECTURA_MAXIMA {
                self.pendientes()
            } else {
                LECTURA_MAXIMA as int
            },
    {
        let faltan = self.faltan();
        if faltan <= LECTURA_MAXIMA {
            faltan
        } else {
            LECTURA_MAXIMA
        }
    }

    /// Takes in the bytes that one read brought. A read that brings nothing
    /// means that the peer closed the connection, and one that brings more
    /// than was still to come cannot be part of this message: both fail the
    /// read, and with it the message.
    pub fn recibir(self, trozo: &[u8]) -> (r: Result<LecturaEnCurso, TipodeError>)
        ensures
            0 < trozo@.len() <= self.pendientes() ==> r is Ok && r.unwrap().tipo() == self.tipo()
                && r.unwrap().anunciados() == self.anunciados() && r.unwrap().recibidos()
                == self.recibidos() + trozo@,
            !(0 < trozo@.len() <= self.pendientes()) ==> (r matches Err(e) && e
                == TipodeError::ErrorLectura),
    {
        proof {
            use_type_invariant(&self);
        }
        let LecturaEnCurso { tipo, tamanio, recibidos } = self;
        let mut recibidos = recibidos;
        let faltan = tamanio as usize - recibidos.len();
        if trozo.len() == 0 || trozo.len() > faltan {
            return Err(TipodeError::ErrorLectura);
        }
        let ghost antes = recibidos@;
        let mut i: usize = 0;
        while i < trozo.len()
            invariant
                i <= trozo@.len(),
                trozo@.len() <= faltan,
                faltan == tamanio - antes.len(),
                recibidos@ == antes + trozo@.subrange(0, i as int),
            decreases trozo@.len() - i,
        {
            recibidos.push(trozo[i]);
            i = i + 1;
            assert(recibidos@ =~= antes + trozo@.subrange(0, i as int));
        }
        assert(trozo@.subrange(0, trozo@.len() as int) =~= trozo@);
        Ok(LecturaEnCurso { tipo, tamanio, recibidos })
    }

    /// The message, once its whole payload has arrived; nothing before that.
    pub fn mensaje(self) -> (r: Option<MensajeProtocolo>)
        ensures
            self.pendientes() == 0 ==> r is Some && r.unwrap()@ == (Mensaje {
                tipo: self.tipo(),
                contenido: self.recibidos(),
            }),
            self.pendientes() != 0 ==> r is None,
    {
        proof {
            use_type_invariant(&self);
        }
        if self.recibidos.len() == self.tamanio as usize {
            Some(MensajeProtocolo::new(self.tipo, self.recibidos))
        } else {
            None
        }
    }
}

/// Decodes the first frame of `datos`: the two header bytes, then as many
/// payload bytes as the header announces. Too few bytes for the header or for
/// the payload fail the read, and so does the header of two zero bytes; an
/// unknown kind is reported as such.
pub fn decodificar(datos: &[u8]) -> (r: Result<MensajeProtocolo, TipodeError>)
    ensures
        match decodificacion(datos@) {
            Ok(m) => r is Ok && r.unwrap()@ == m,
            Err(e) => (r matches Err(e2) && e2 == e),
        },
        es_centinela(datos@) ==> (r matches Err(e) && e == TipodeError::ErrorLectura),
{
    if datos.len() < 2 {
        return Err(TipodeError::ErrorLectura);
    }
    let lectura = match LecturaEnCurso::iniciar(datos[0], datos[1]) {
        Ok(l) => l,
        Err(e) => {
            return Err(e);
        },
    };
    let tamanio = datos[1] as usize;
    if datos.len() - 2 < tamanio {
        return Err(TipodeError::ErrorLectura);
    }
    let completa = if tamanio > 0 {
        let trozo = vstd::slice::slice_subrange(datos, 2, 2 + tamanio);
        match lectura.recibir(trozo) {
            Ok(l) => l,
            Err(e) => {
                return Err(e);
            },
        }
    } else {
        lectura
    };
    assert(completa.recibidos() =~= datos@.subrange(2, 2 + tamanio));
    match completa.mensaje() {
        Some(m) => Ok(m),
        None => Err(TipodeError::ErrorLectura),
    }
}

/// Only a connection record without payload is framed as two zero bytes: it
/// is the one message that cannot be sent.
pub proof fn lema_trama_centinela(m: Mensaje)
    requires
        m.cabe(),
    ensures
        es_centinela(m.trama()) <==> m.tipo == TipoDeMensaje::Conexion && m.contenido.len() == 0,
{
}

/// Decoding the frame of a message gives the message back, for every message
/// whose payload fits the length field and whose frame is not the header of
/// two zero bytes.
pub proof fn lema_ida_y_vuelta(m: Mensaje)
    requires
        m.cabe(),
        !es_centinela(m.trama()),
    ensures
        decodificacion(m.trama()) == Ok::<Mensaje, TipodeError>(m),
{
    let t = m.trama();
    assert(t.len() == 2 + m.contenido.len());
    assert(t[0] == m.tipo.ordinal());
    assert(t[1] == m.contenido.len() as u8);
    assert(TipoDeMensaje::de_ordinal(m.tipo.ordinal()) == Some(m.tipo));
    assert(t.subrange(2, 2 + t[1]) =~= m.contenido);
}

/// Bytes that follow a frame do not change what the frame decodes to.
pub proof fn lema_ida_y_vuelta_con_resto(m: Mensaje, resto: Seq<u8>)
    requires
        m.cabe(),
        !es_centinela(m.trama()),
    ensures
        decodificacion(m.trama() + resto) == Ok::<Mensaje, TipodeError>(m),
{
    let t = m.trama() + resto;
    assert(t[0] == m.tipo.ordinal());
    assert(t[1] == m.contenido.len() as u8);
    assert(TipoDeMensaje::de_ordinal(m.tipo.ordinal()) == Some(m.tipo));
    assert(t.subrange(2, 2 + t[1]) =~= m.contenido);
}

} // verus!
