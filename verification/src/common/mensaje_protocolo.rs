use crate::common::error_local::ErrorLocal;
use crate::common::socket::TipodeError;
use vstd::prelude::*;

verus! {

/// The longest payload that a frame can carry: its length travels in one byte.
pub const CONTENIDO_MAXIMO: usize = 255;

/// The most bytes asked of the connection in one read while a payload is taken in.
pub const LECTURA_MAXIMA: usize = 1024;

/// The kinds of message. Each travels as its position in this list, from 0.
#[derive(Debug, Clone, Copy, PartialEq, Eq, Structural)]
pub enum TipoDeMensaje {
    Conexion,
    Orden,
    StockInsuficiente,
    OrdenAceptada,
    QuieroMandarOrdenes,
    PuedoMandarOrdenes,
    TermineDeMandarOrdenes,
    Desconexion,
}

impl TipoDeMensaje {
    /// The byte that stands for this kind on the wire.
    pub open spec fn ordinal(self) -> u8 {
        match self {
            TipoDeMensaje::Conexion => 0,
            TipoDeMensaje::Orden => 1,
            TipoDeMensaje::StockInsuficiente => 2,
            TipoDeMensaje::OrdenAceptada => 3,
            TipoDeMensaje::QuieroMandarOrdenes => 4,
            TipoDeMensaje::PuedoMandarOrdenes => 5,
            TipoDeMensaje::TermineDeMandarOrdenes => 6,
            TipoDeMensaje::Desconexion => 7,
        }
    }

    /// The kind that a header byte names, if any.
    pub open spec fn de_ordinal(byte: u8) -> Option<TipoDeMensaje> {
        if byte == 0 {
            Some(TipoDeMensaje::Conexion)
        } else if byte == 1 {
            Some(TipoDeMensaje::Orden)
        } else if byte == 2 {
            Some(TipoDeMensaje::StockInsuficiente)
        } else if byte == 3 {
            Some(TipoDeMensaje::OrdenAceptada)
        } else if byte == 4 {
            Some(TipoDeMensaje::QuieroMandarOrdenes)
        } else if byte == 5 {
            Some(TipoDeMensaje::PuedoMandarOrdenes)
        } else if byte == 6 {
            Some(TipoDeMensaje::TermineDeMandarOrdenes)
        } else if byte == 7 {
            Some(TipoDeMensaje::Desconexion)
        } else {
            None
        }
    }

    /// The name of this kind, which is also the token that a store sends back
    /// in a datagram.
    pub open spec fn nombre(self) -> Seq<char> {
        match self {
            TipoDeMensaje::StockInsuficiente => "StockInsuficiente"@,
            TipoDeMensaje::OrdenAceptada => "OrdenAceptada"@,
            TipoDeMensaje::Orden => "Orden"@,
            TipoDeMensaje::Conexion => "Conexion"@,
            TipoDeMensaje::QuieroMandarOrdenes => "QuieroMandarOrdenes"@,
            TipoDeMensaje::PuedoMandarOrdenes => "PuedoMandarOrdenes"@,
            TipoDeMensaje::TermineDeMandarOrdenes => "TermineDeMandarOrdenes"@,
            TipoDeMensaje::Desconexion => "Desconexion"@,
        }
    }

    /// The name of this kind.
    pub fn value(&self) -> (r: &'static str)
        ensures
            r@ == self.nombre(),
    {
        match *self {
            TipoDeMensaje::StockInsuficiente => "StockInsuficiente",
            TipoDeMensaje::OrdenAceptada => "OrdenAceptada",
            TipoDeMensaje::Orden => "Orden",
            TipoDeMensaje::Conexion => "Conexion",
            TipoDeMensaje::QuieroMandarOrdenes => "QuieroMandarOrdenes",
            TipoDeMensaje::PuedoMandarOrdenes => "PuedoMandarOrdenes",
            TipoDeMensaje::TermineDeMandarOrdenes => "TermineDeMandarOrdenes",
            TipoDeMensaje::Desconexion => "Desconexion",
        }
    }

    /// The byte that stands for this kind on the wire.
    pub fn codigo(&self) -> (r: u8)
        ensures
            r == self.ordinal(),
            r <= 7,
            TipoDeMensaje::de_ordinal(r) == Some(*self),
    {
        match *self {
            TipoDeMensaje::Conexion => 0,
            TipoDeMensaje::Orden => 1,
            TipoDeMensaje::StockInsuficiente => 2,
            TipoDeMensaje::OrdenAceptada => 3,
            TipoDeMensaje::QuieroMandarOrdenes => 4,
            TipoDeMensaje::PuedoMandarOrdenes => 5,
            TipoDeMensaje::TermineDeMandarOrdenes => 6,
            TipoDeMensaje::Desconexion => 7,
        }
    }

    /// Reads a kind from a header byte: 0 to 7 name one, any other byte is an error.
    pub fn new_tipo_de_mensaje(tipo_de_mensaje: u8) -> (r: Result<TipoDeMensaje, TipodeError>)
        ensures
            match TipoDeMensaje::de_ordinal(tipo_de_mensaje) {
                Some(t) => r == Ok::<TipoDeMensaje, TipodeError>(t) && t.ordinal()
                    == tipo_de_mensaje,
                None => r == Err::<TipoDeMensaje, TipodeError>(TipodeError::ErrorTipoDeMensaje),
            },
            r is Ok <==> tipo_de_mensaje <= 7,
    {
        match tipo_de_mensaje {
            0 => Ok(TipoDeMensaje::Conexion),
            1 => Ok(TipoDeMensaje::Orden),
            2 => Ok(TipoDeMensaje::StockInsuficiente),
            3 => Ok(TipoDeMensaje::OrdenAceptada),
            4 => Ok(TipoDeMensaje::QuieroMandarOrdenes),
            5 => Ok(TipoDeMensaje::PuedoMandarOrdenes),
            6 => Ok(TipoDeMensaje::TermineDeMandarOrdenes),
            7 => Ok(TipoDeMensaje::Desconexion),
            _ => Err(TipodeError::ErrorTipoDeMensaje),
        }
    }

    /// The kind of reply that a store owes a dispatcher for an order: the
    /// acceptance when the order was taken in, the refusal otherwise.
    pub fn de_resultado(resultado: &Result<(), ErrorLocal>) -> (r: TipoDeMensaje)
        ensures
            r == (if resultado is Ok {
                TipoDeMensaje::OrdenAceptada
            } else {
                TipoDeMensaje::StockInsuficiente
            }),
    {
        match resultado {
            Ok(_) => TipoDeMensaje::OrdenAceptada,
            Err(e) => TipoDeMensaje::from_error_local(e),
        }
    }

    /// The kind of reply that tells a dispatcher of a refusal: whatever the
    /// store's reason, the dispatcher hears that the stock did not suffice.
    pub fn from_error_local(error_local: &ErrorLocal) -> (r: TipoDeMensaje)
        ensures
            r == TipoDeMensaje::StockInsuficiente,
    {
        match error_local {
            ErrorLocal::StockInsuficiente => TipoDeMensaje::StockInsuficiente,
            ErrorLocal::NoExisteProductoEnLocal => TipoDeMensaje::StockInsuficiente,
            ErrorLocal::CantidadOrdenMayorQueBloqueados => TipoDeMensaje::StockInsuficiente,
        }
    }
}

/// The record that a follower sends first on a new connection: who it is.
#[derive(Debug, Clone)]
pub struct Conexion {
    pub nombre: String,
}

/// The record that travels with a grant: where in its order source the
/// follower is to resume.
#[derive(Debug, Clone, Copy, PartialEq, Eq, Structural)]
pub struct MandarOrdenes {
    pub cursor: i32,
}

/// A message as a mathematical value: its kind and its payload.
pub struct Mensaje {
    pub tipo: TipoDeMensaje,
    pub contenido: Seq<u8>,
}

impl Mensaje {
    /// Whether the payload fits the one-byte length field.
    pub open spec fn cabe(self) -> bool {
        self.contenido.len() <= CONTENIDO_MAXIMO
    }

    /// The frame of a message: the kind, the payload's length, the payload.
    pub open spec fn trama(self) -> Seq<u8>
        recommends
            self.cabe(),
    {
        seq![self.tipo.ordinal(), self.contenido.len() as u8] + self.contenido
    }
}

/// A header of two zero bytes is what a peer sends when it did not understand.
/// It is never read as a message: it fails the read.
pub open spec fn es_centinela(datos: Seq<u8>) -> bool {
    datos.len() >= 2 && datos[0] == 0 && datos[1] == 0
}

/// What the first frame of `datos` decodes to. The header comes first: without
/// its two bytes the read fails, and so it does on the header of two zero
/// bytes; an unknown kind is an error before any payload is looked at. Then as
/// many bytes as the header announces make the payload; with fewer at hand the
/// read fails. Bytes after the frame are not part of it.
pub open spec fn decodificacion(datos: Seq<u8>) -> Result<Mensaje, TipodeError> {
    if datos.len() < 2 || es_centinela(datos) {
        Err(TipodeError::ErrorLectura)
    } else {
        match TipoDeMensaje::de_ordinal(datos[0]) {
            None => Err(TipodeError::ErrorTipoDeMensaje),
            Some(tipo) => if datos.len() < 2 + datos[1] {
                Err(TipodeError::ErrorLectura)
            } else {
                Ok(Mensaje { tipo, contenido: datos.subrange(2, 2 + datos[1]) })
            },
        }
    }
}

/// A message of the protocol, ready to be framed. Its payload always fits the
/// length field.
pub struct MensajeProtocolo {
    tipo_de_mensaje: TipoDeMensaje,
    tamanio: u8,
    contenido: Vec<u8>,
}

impl View for MensajeProtocolo {
    type V = Mensaje;

    closed spec fn view(&self) -> Mensaje {
        Mensaje { tipo: self.tipo_de_mensaje, contenido: self.contenido@ }
    }
}

impl Clone for MensajeProtocolo {
    fn clone(&self) -> (r: Self)
        ensures
            r@ == self@,
    {
        proof {
            use_type_invariant(self);
        }
        MensajeProtocolo {
            tipo_de_mensaje: self.tipo_de_mensaje,
            tamanio: self.tamanio,
            contenido: copia(self.contenido.as_slice()),
        }
    }
}

/// A fresh vector with the bytes of `datos`.
fn copia(datos: &[u8]) -> (r: Vec<u8>)
    ensures
        r@ == datos@,
{
    let mut r: Vec<u8> = Vec::new();
    let mut i: usize = 0;
    while i < datos.len()
        invariant
            i <= datos.len(),
            r@ == datos@.subrange(0, i as int),
        decreases datos.len() - i,
    {
        r.push(datos[i]);
        i = i + 1;
        assert(r@ =~= datos@.subrange(0, i as int));
    }
    assert(datos@.subrange(0, datos@.len() as int) =~= datos@);
    r
}

impl MensajeProtocolo {
    #[verifier::type_invariant]
    spec fn coherente(self) -> bool {
        self.tamanio as nat == self.contenido@.len()
    }

    /// A message of the given kind with the given payload.
    pub fn new(tipo_de_mensaje: TipoDeMensaje, contenido: Vec<u8>) -> (r: Self)
        requires
            contenido@.len() <= CONTENIDO_MAXIMO,
        ensures
            r@ == (Mensaje { tipo: tipo_de_mensaje, contenido: contenido@ }),
            r@.cabe(),
    {
        let tamanio = contenido.len() as u8;
        MensajeProtocolo { tipo_de_mensaje, tamanio, contenido }
    }

    /// A message of the given kind with the given payload, unless the payload
    /// is too long to be framed.
    pub fn con_contenido(tipo_de_mensaje: TipoDeMensaje, contenido: Vec<u8>) -> (r: Option<Self>)
        ensures
            contenido@.len() <= CONTENIDO_MAXIMO ==> r is Some && r.unwrap()@ == (Mensaje {
                tipo: tipo_de_mensaje,
                contenido: contenido@,
            }),
            contenido@.len() > CONTENIDO_MAXIMO ==> r is None,
    {
        if contenido.len() <= CONTENIDO_MAXIMO {
            Some(MensajeProtocolo::new(tipo_de_mensaje, contenido))
        } else {
            None
        }
    }

    /// The message by which a follower leaves for good.
    pub fn new_desconexion() -> (r: Self)
        ensures
            r@ == (Mensaje { tipo: TipoDeMensaje::Desconexion, contenido: Seq::<u8>::empty() }),
    {
        MensajeProtocolo::new(TipoDeMensaje::Desconexion, Vec::new())
    }

    /// The message by which a follower gives the permit back after a batch.
    pub fn new_termino_de_mandar_ordenes() -> (r: Self)
        ensures
            r@ == (Mensaje {
                tipo: TipoDeMensaje::TermineDeMandarOrdenes,
                contenido: Seq::<u8>::empty(),
            }),
    {
        MensajeProtocolo::new(TipoDeMensaje::TermineDeMandarOrdenes, Vec::new())
    }

    /// The reply of a store that took an order in.
    pub fn new_orden_aceptada() -> (r: Self)
        ensures
            r@ == (Mensaje { tipo: TipoDeMensaje::OrdenAceptada, contenido: Seq::<u8>::empty() }),
    {
        MensajeProtocolo::new(TipoDeMensaje::OrdenAceptada, Vec::new())
    }

    /// The reply of a store that refused an order.
    pub fn new_stock_insuficiente() -> (r: Self)
        ensures
            r@ == (Mensaje {
                tipo: TipoDeMensaje::StockInsuficiente,
                contenido: Seq::<u8>::empty(),
            }),
    {
        MensajeProtocolo::new(TipoDeMensaje::StockInsuficiente, Vec::new())
    }

    /// The message by which a follower asks for the permit.
    pub fn new_quiero_mandar_ordenes() -> (r: Self)
        ensures
            r@ == (Mensaje {
                tipo: TipoDeMensaje::QuieroMandarOrdenes,
                contenido: Seq::<u8>::empty(),
            }),
    {
        MensajeProtocolo::new(TipoDeMensaje::QuieroMandarOrdenes, Vec::new())
    }

    pub fn get_tipo_de_mensaje(&self) -> (r: TipoDeMensaje)
        ensures
            r == self@.tipo,
    {
        self.tipo_de_mensaje
    }

    /// The payload's length, as the header carries it.
    pub fn get_tamanio(&self) -> (r: u8)
        ensures
            r as nat == self@.contenido.len(),
    {
        proof {
            use_type_invariant(self);
        }
        self.tamanio
    }

    pub fn get_contenido(&self) -> (r: &Vec<u8>)
        ensures
            r@ == self@.contenido,
            r@.len() <= CONTENIDO_MAXIMO,
    {
        proof {
            use_type_invariant(self);
        }
        &self.contenido
    }

    /// The frame to put on the wire: one byte for the kind, one for the
    /// payload's length, then the payload.
    pub fn codificar(&self) -> (r: Vec<u8>)
        ensures
            r@ == self@.trama(),
            r@.len() == 2 + self@.contenido.len(),
            self@.cabe(),
    {
        proof {
            use_type_invariant(self);
        }
        let mut buffer: Vec<u8> = Vec::new();
        buffer.push(self.tipo_de_mensaje.codigo());
        buffer.push(self.tamanio);
        let mut i: usize = 0;
        while i < self.contenido.len()
            invariant
                i <= self.contenido@.len(),
                buffer@ == seq![self.tipo_de_mensaje.ordinal(), self.tamanio]
                    + self.contenido@.subrange(0, i as int),
            decreases self.contenido@.len() - i,
        {
            buffer.push(self.contenido[i]);
            i = i + 1;
            assert(buffer@ =~= seq![self.tipo_de_mensaje.ordinal(), self.tamanio]
                + self.contenido@.subrange(0, i as int));
        }
        assert(self.contenido@.subrange(0, self.contenido@.len() as int) =~= self.contenido@);
        buffer
    }
}

} // verus!
