# turnero

Sistema de reserva de turnos presenciales para el Certificado de Antecedentes
Penales. La lógica del sistema es una biblioteca verificada con Verus; el
servidor web es un programa Rust común que la usa.

## Estructura

- `src/` — biblioteca verificada:
  - `texto.rs`: operaciones sobre caracteres (copia, comparación, búsqueda).
  - `validacion.rs`: correo electrónico, saneamiento de documento y teléfono,
    lectura de números y de bloques `H:M`, vencimiento de un bloque.
  - `calendario.rs`: fechas e instantes; lectura, escritura y día de la semana
    mediante `chrono`.
  - `modelos.rs`: tipos del dominio.
  - `solicitud.rs`: validación completa de una solicitud de turno.
  - `formulario.rs`: disponibilidad de bloques y contexto de la vista pública.
  - `admin.rs`: credenciales, sesión, historial y bajas.
  - `recursos.rs`: rutas de activos estáticos, tipo MIME y nombres de plantillas.
  - `leyes.rs`: propiedades que relacionan varias reglas.
- `tests/` — pruebas de la biblioteca.
- `app/` — servidor Salvo: rutas, plantillas MiniJinja, SQLite y activos
  embebidos con `rust-embed` (directorios `templates/` y `static/`).
