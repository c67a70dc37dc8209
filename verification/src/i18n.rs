//! The portal's texts in English, Spanish, French and Portuguese.
use vstd::prelude::*;
use crate::text::{
    chars_of, contains, dec, dec_i64, dec_int, dec_u64, push_chars, push_str, spec_to_lowercase,
    str_contains, to_lowercase,
};

verus! {

/// The language of the portal's texts.
#[derive(Debug, Clone, Copy, PartialEq, Eq, Structural)]
pub enum Locale {
    En,
    Es,
    Fr,
    Pt,
}

impl Default for Locale {
    /// English.
    fn default() -> (l: Self)
        ensures
            l == Locale::En,
    {
        Locale::En
    }
}

impl Locale {
    /// The language code.
    pub fn as_str(&self) -> (s: &'static str)
        ensures
            s@ == match *self {
                Locale::En => "en"@,
                Locale::Es => "es"@,
                Locale::Fr => "fr"@,
                Locale::Pt => "pt"@,
            },
    {
        match self {
            Locale::En => "en",
            Locale::Es => "es",
            Locale::Fr => "fr",
            Locale::Pt => "pt",
        }
    }

    /// The locale an `Accept-Language` header asks for (lowercased): Spanish when it
    /// mentions `es`, else French for `fr`, else Portuguese for `pt`, else English
    /// (also without a header).
    pub fn from_accept_language(header: Option<&str>) -> (l: Locale)
        ensures
            ({
                let lang = spec_to_lowercase(match header {
                    Some(h) => h@,
                    None => ""@,
                });
                l == if contains(lang, "es"@) {
                    Locale::Es
                } else if contains(lang, "fr"@) {
                    Locale::Fr
                } else if contains(lang, "pt"@) {
                    Locale::Pt
                } else {
                    Locale::En
                }
            }),
    {
        let h = match header {
            Some(h) => h,
            None => "",
        };
        let lang = to_lowercase(h);
        if str_contains(lang.as_str(), "es") {
            Locale::Es
        } else if str_contains(lang.as_str(), "fr") {
            Locale::Fr
        } else if str_contains(lang.as_str(), "pt") {
            Locale::Pt
        } else {
            Locale::En
        }
    }
}

/// What `ammonia::clean_text` puts in place of a character: HTML-significant and
/// whitespace characters become character references, all others stay.
pub open spec fn escape_char(c: char) -> Seq<char> {
    if c == '<' {
        "&lt;"@
    } else if c == '>' {
        "&gt;"@
    } else if c == '"' {
        "&quot;"@
    } else if c == '\'' {
        "&apos;"@
    } else if c == '`' {
        "&grave;"@
    } else if c == '/' {
        "&#47;"@
    } else if c == '&' {
        "&amp;"@
    } else if c == '=' {
        "&#61;"@
    } else if c == ' ' {
        "&#32;"@
    } else if c == '\t' {
        "&#9;"@
    } else if c == '\n' {
        "&#10;"@
    } else if c == '\x0c' {
        "&#12;"@
    } else if c == '\r' {
        "&#13;"@
    } else if c == '\0' {
        "&#65533;"@
    } else {
        seq![c]
    }
}

/// Text made safe to place in HTML: each character replaced as `escape_char` says.
pub open spec fn escape_html(s: Seq<char>) -> Seq<char>
    decreases s.len(),
{
    if s.len() == 0 {
        Seq::empty()
    } else {
        escape_html(s.drop_last()) + escape_char(s.last())
    }
}

/// `ammonia::clean_text`, which escapes exactly as `escape_html` says.
#[verifier::external_body]
pub(crate) fn clean_text(s: &str) -> (r: String)
    ensures
        r@ == escape_html(s@),
{
    ammonia::clean_text(s)
}

/// Escaped text holds no `<` or `>`, so it cannot open or close a tag.
pub proof fn lemma_escape_html_no_tags(s: Seq<char>)
    ensures
        forall|i: int| 0 <= i < escape_html(s).len() ==> #[trigger] escape_html(s)[i] != '<' && escape_html(s)[i] != '>',
    decreases s.len(),
{
    if s.len() > 0 {
        lemma_escape_html_no_tags(s.drop_last());
        let c = s.last();
        reveal_strlit("&lt;");
        reveal_strlit("&gt;");
        reveal_strlit("&quot;");
        reveal_strlit("&apos;");
        reveal_strlit("&grave;");
        reveal_strlit("&#47;");
        reveal_strlit("&amp;");
        reveal_strlit("&#61;");
        reveal_strlit("&#32;");
        reveal_strlit("&#9;");
        reveal_strlit("&#10;");
        reveal_strlit("&#12;");
        reveal_strlit("&#13;");
        reveal_strlit("&#65533;");
        let a = escape_html(s.drop_last());
        let b = escape_char(c);
        assert forall|i: int| 0 <= i < b.len() implies #[trigger] b[i] != '<' && b[i] != '>' by {
        }
        assert forall|i: int| 0 <= i < (a + b).len() implies #[trigger] (a + b)[i] != '<' && (a + b)[i] != '>' by {
            if i < a.len() {
                assert((a + b)[i] == a[i]);
            } else {
                assert((a + b)[i] == b[i - a.len()]);
            }
        }
    }
}

impl Locale {
    pub open spec fn login_title_text(self) -> Seq<char> {
        match self {
            Locale::En => "Login"@,
            Locale::Es => "Iniciar Sesión"@,
            Locale::Fr => "Connexion"@,
            Locale::Pt => "Entrar"@,
        }
    }

    pub open spec fn email_label_text(self) -> Seq<char> {
        match self {
            Locale::En => "Email:"@,
            Locale::Es => "Correo electrónico:"@,
            Locale::Fr => "E-mail:"@,
            Locale::Pt => "E-mail:"@,
        }
    }

    pub open spec fn password_label_text(self) -> Seq<char> {
        match self {
            Locale::En => "Password:"@,
            Locale::Es => "Contraseña:"@,
            Locale::Fr => "Mot de passe:"@,
            Locale::Pt => "Senha:"@,
        }
    }

    pub open spec fn login_button_text(self) -> Seq<char> {
        match self {
            Locale::En => "Login"@,
            Locale::Es => "Entrar"@,
            Locale::Fr => "Se connecter"@,
            Locale::Pt => "Entrar"@,
        }
    }

    pub open spec fn register_link_prompt_text(self) -> Seq<char> {
        match self {
            Locale::En => "Don't have an account?"@,
            Locale::Es => "¿No tienes una cuenta?"@,
            Locale::Fr => "Vous n'avez pas de compte ?"@,
            Locale::Pt => "Não tem uma conta?"@,
        }
    }

    pub open spec fn register_link_text_text(self) -> Seq<char> {
        match self {
            Locale::En => "Register here"@,
            Locale::Es => "Regístrate aquí"@,
            Locale::Fr => "Inscrivez-vous ici"@,
            Locale::Pt => "Registe-se aqui"@,
        }
    }

    pub open spec fn invalid_credentials_text(self) -> Seq<char> {
        match self {
            Locale::En => "Invalid email or password"@,
            Locale::Es => "Correo o contraseña inválidos"@,
            Locale::Fr => "E-mail ou mot de passe invalide"@,
            Locale::Pt => "E-mail ou senha inválidos"@,
        }
    }

    pub open spec fn register_title_text(self) -> Seq<char> {
        match self {
            Locale::En => "Register"@,
            Locale::Es => "Registro"@,
            Locale::Fr => "Inscription"@,
            Locale::Pt => "Registo"@,
        }
    }

    pub open spec fn register_button_text(self) -> Seq<char> {
        match self {
            Locale::En => "Register"@,
            Locale::Es => "Registrarse"@,
            Locale::Fr => "S'inscrire"@,
            Locale::Pt => "Registar"@,
        }
    }

    pub open spec fn login_link_prompt_text(self) -> Seq<char> {
        match self {
            Locale::En => "Already have an account?"@,
            Locale::Es => "¿Ya tienes una cuenta?"@,
            Locale::Fr => "Vous avez déjà un compte ?"@,
            Locale::Pt => "Já tem uma conta?"@,
        }
    }

    pub open spec fn login_link_text_text(self) -> Seq<char> {
        match self {
            Locale::En => "Login here"@,
            Locale::Es => "Inicia sesión aquí"@,
            Locale::Fr => "Connectez-vous ici"@,
            Locale::Pt => "Entre aqui"@,
        }
    }

    pub open spec fn error_invalid_email_text(self) -> Seq<char> {
        match self {
            Locale::En => "Invalid email"@,
            Locale::Es => "Correo inválido"@,
            Locale::Fr => "E-mail invalide"@,
            Locale::Pt => "E-mail inválido"@,
        }
    }

    pub open spec fn error_invalid_domain_text(self) -> Seq<char> {
        match self {
            Locale::En => "Invalid domain"@,
            Locale::Es => "Dominio inválido"@,
            Locale::Fr => "Domaine invalide"@,
            Locale::Pt => "Domínio inválido"@,
        }
    }

    pub open spec fn error_email_taken_text(self) -> Seq<char> {
        match self {
            Locale::En => "Email already registered"@,
            Locale::Es => "Este correo ya está registrado"@,
            Locale::Fr => "E-mail déjà enregistré"@,
            Locale::Pt => "E-mail já registado"@,
        }
    }

    pub open spec fn dashboard_title_text(self) -> Seq<char> {
        match self {
            Locale::En => "Dashboard"@,
            Locale::Es => "Panel de Control"@,
            Locale::Fr => "Tableau de bord"@,
            Locale::Pt => "Painel de Controlo"@,
        }
    }

    pub open spec fn compose_button_text(self) -> Seq<char> {
        match self {
            Locale::En => "Compose"@,
            Locale::Es => "Redactar"@,
            Locale::Fr => "Nouveau message"@,
            Locale::Pt => "Compor"@,
        }
    }

    pub open spec fn compose_from_text(self) -> Seq<char> {
        match self {
            Locale::En => "From"@,
            Locale::Es => "De"@,
            Locale::Fr => "De"@,
            Locale::Pt => "De"@,
        }
    }

    pub open spec fn compose_to_text(self) -> Seq<char> {
        match self {
            Locale::En => "To"@,
            Locale::Es => "Para"@,
            Locale::Fr => "À"@,
            Locale::Pt => "Para"@,
        }
    }

    pub open spec fn compose_subject_text(self) -> Seq<char> {
        match self {
            Locale::En => "Subject"@,
            Locale::Es => "Asunto"@,
            Locale::Fr => "Sujet"@,
            Locale::Pt => "Assunto"@,
        }
    }

    pub open spec fn compose_body_text(self) -> Seq<char> {
        match self {
            Locale::En => "Message"@,
            Locale::Es => "Mensaje"@,
            Locale::Fr => "Message"@,
            Locale::Pt => "Mensagem"@,
        }
    }

    pub open spec fn compose_send_text(self) -> Seq<char> {
        match self {
            Locale::En => "Send Email"@,
            Locale::Es => "Enviar Correo"@,
            Locale::Fr => "Envoyer"@,
            Locale::Pt => "Enviar Email"@,
        }
    }

    pub open spec fn compose_sending_text(self) -> Seq<char> {
        match self {
            Locale::En => "Sending..."@,
            Locale::Es => "Enviando..."@,
            Locale::Fr => "Envoi en cours..."@,
            Locale::Pt => "A enviar..."@,
        }
    }

    pub open spec fn logout_button_text(self) -> Seq<char> {
        match self {
            Locale::En => "Logout"@,
            Locale::Es => "Cerrar Sesión"@,
            Locale::Fr => "Déconnexion"@,
            Locale::Pt => "Sair"@,
        }
    }

    pub open spec fn stats_aliases_text(self) -> Seq<char> {
        match self {
            Locale::En => "Active Aliases"@,
            Locale::Es => "Alias Activos"@,
            Locale::Fr => "Alias actifs"@,
            Locale::Pt => "Alias Ativos"@,
        }
    }

    pub open spec fn stats_domains_text(self) -> Seq<char> {
        match self {
            Locale::En => "Connected Domains"@,
            Locale::Es => "Dominios Conectados"@,
            Locale::Fr => "Domaines connectés"@,
            Locale::Pt => "Domínios Conectados"@,
        }
    }

    pub open spec fn stats_emails_text(self) -> Seq<char> {
        match self {
            Locale::En => "Total Emails Received"@,
            Locale::Es => "Correos Recibidos"@,
            Locale::Fr => "Total des e-mails reçus"@,
            Locale::Pt => "Total de E-mails Recebidos"@,
        }
    }

    pub open spec fn manage_aliases_text(self) -> Seq<char> {
        match self {
            Locale::En => "Manage Aliases"@,
            Locale::Es => "Gestionar Alias"@,
            Locale::Fr => "Gérer les alias"@,
            Locale::Pt => "Gerir alias"@,
        }
    }

    pub open spec fn manage_domains_text(self) -> Seq<char> {
        match self {
            Locale::En => "Manage Domains"@,
            Locale::Es => "Gestionar Dominios"@,
            Locale::Fr => "Gérer les domaines"@,
            Locale::Pt => "Gerir domínios"@,
        }
    }

    pub open spec fn table_sender_text(self) -> Seq<char> {
        match self {
            Locale::En => "Sender"@,
            Locale::Es => "Remitente"@,
            Locale::Fr => "Expéditeur"@,
            Locale::Pt => "Remetente"@,
        }
    }

    pub open spec fn table_subject_text(self) -> Seq<char> {
        match self {
            Locale::En => "Subject"@,
            Locale::Es => "Asunto"@,
            Locale::Fr => "Objet"@,
            Locale::Pt => "Assunto"@,
        }
    }

    pub open spec fn table_received_text(self) -> Seq<char> {
        match self {
            Locale::En => "Received At"@,
            Locale::Es => "Recibido el"@,
            Locale::Fr => "Reçu le"@,
            Locale::Pt => "Recebido em"@,
        }
    }

    pub open spec fn table_forwarded_text(self) -> Seq<char> {
        match self {
            Locale::En => "Forwarded"@,
            Locale::Es => "Reenviado"@,
            Locale::Fr => "Transféré"@,
            Locale::Pt => "Reencaminhado"@,
        }
    }

    pub open spec fn table_header_to_text(self) -> Seq<char> {
        match self {
            Locale::En => "Recipient"@,
            Locale::Es => "Destinatario"@,
            Locale::Fr => "Destinataire"@,
            Locale::Pt => "Destinatário"@,
        }
    }

    pub open spec fn table_header_outbound_status_text(self) -> Seq<char> {
        match self {
            Locale::En => "Status"@,
            Locale::Es => "Estado"@,
            Locale::Fr => "Statut"@,
            Locale::Pt => "Estado"@,
        }
    }

    pub open spec fn table_header_outbound_sent_text(self) -> Seq<char> {
        match self {
            Locale::En => "Sent At"@,
            Locale::Es => "Enviado el"@,
            Locale::Fr => "Envoyé le"@,
            Locale::Pt => "Enviado em"@,
        }
    }

    pub open spec fn table_header_outbound_updated_text(self) -> Seq<char> {
        match self {
            Locale::En => "Last Updated"@,
            Locale::Es => "Última Edición"@,
            Locale::Fr => "Dernière modification"@,
            Locale::Pt => "Última Edição"@,
        }
    }

    pub open spec fn table_actions_text(self) -> Seq<char> {
        match self {
            Locale::En => "Actions"@,
            Locale::Es => "Acciones"@,
            Locale::Fr => "Actions"@,
            Locale::Pt => "Ações"@,
        }
    }

    pub open spec fn no_emails_text(self) -> Seq<char> {
        match self {
            Locale::En => "No emails received yet."@,
            Locale::Es => "No se han recibido correos aún."@,
            Locale::Fr => "Aucun e-mail reçu pour le moment."@,
            Locale::Pt => "Nenhum e-mail recebido ainda."@,
        }
    }

    pub open spec fn recent_emails_title_text(self) -> Seq<char> {
        match self {
            Locale::En => "Recent Emails"@,
            Locale::Es => "Correos Recientes"@,
            Locale::Fr => "E-mails récents"@,
            Locale::Pt => "E-mails Recentes"@,
        }
    }

    pub open spec fn sent_emails_title_text(self) -> Seq<char> {
        match self {
            Locale::En => "Sent Emails"@,
            Locale::Es => "Correos Enviados"@,
            Locale::Fr => "E-mails envoyés"@,
            Locale::Pt => "E-mails Enviados"@,
        }
    }

    pub open spec fn draft_emails_title_text(self) -> Seq<char> {
        match self {
            Locale::En => "Draft Emails"@,
            Locale::Es => "Borradores"@,
            Locale::Fr => "Brouillons"@,
            Locale::Pt => "Rascunhos"@,
        }
    }

    pub open spec fn folder_inbox_text(self) -> Seq<char> {
        match self {
            Locale::En => "Inbox"@,
            Locale::Es => "Bandeja de Entrada"@,
            Locale::Fr => "Boîte de réception"@,
            Locale::Pt => "Caixa de Entrada"@,
        }
    }

    pub open spec fn folder_sent_text(self) -> Seq<char> {
        match self {
            Locale::En => "Sent"@,
            Locale::Es => "Enviados"@,
            Locale::Fr => "Envoyés"@,
            Locale::Pt => "Enviados"@,
        }
    }

    pub open spec fn folder_drafts_text(self) -> Seq<char> {
        match self {
            Locale::En => "Drafts"@,
            Locale::Es => "Borradores"@,
            Locale::Fr => "Brouillons"@,
            Locale::Pt => "Rascunhos"@,
        }
    }

    pub open spec fn search_placeholder_text(self) -> Seq<char> {
        match self {
            Locale::En => "Search emails..."@,
            Locale::Es => "Buscar correos..."@,
            Locale::Fr => "Rechercher des emails..."@,
            Locale::Pt => "Pesquisar e-mails..."@,
        }
    }

    pub open spec fn pagination_previous_text(self) -> Seq<char> {
        match self {
            Locale::En => "Previous"@,
            Locale::Es => "Anterior"@,
            Locale::Fr => "Précédent"@,
            Locale::Pt => "Anterior"@,
        }
    }

    pub open spec fn pagination_next_text(self) -> Seq<char> {
        match self {
            Locale::En => "Next"@,
            Locale::Es => "Siguiente"@,
            Locale::Fr => "Suivant"@,
            Locale::Pt => "Seguinte"@,
        }
    }

    pub open spec fn pagination_info_text(self, current: int, total: int) -> Seq<char> {
        match self {
            Locale::En => "Page "@ + dec_int(current) + " of "@ + dec_int(total),
            Locale::Es => "Página "@ + dec_int(current) + " de "@ + dec_int(total),
            Locale::Fr => "Page "@ + dec_int(current) + " sur "@ + dec_int(total),
            Locale::Pt => "Página "@ + dec_int(current) + " de "@ + dec_int(total),
        }
    }

    pub open spec fn from_all_aliases_label_text(self) -> Seq<char> {
        match self {
            Locale::En => "From all aliases"@,
            Locale::Es => "De todos los alias"@,
            Locale::Fr => "De tous les alias"@,
            Locale::Pt => "De todos os alias"@,
        }
    }

    pub open spec fn filter_all_aliases_text(self) -> Seq<char> {
        match self {
            Locale::En => "All Aliases"@,
            Locale::Es => "Todos los Alias"@,
            Locale::Fr => "Tous les alias"@,
            Locale::Pt => "Todos os Alias"@,
        }
    }

    pub open spec fn site_title_text(self) -> Seq<char> {
        match self {
            Locale::En => "Maileroo - Email Forwarder for Privacy"@,
            Locale::Es => "Maileroo - Reenvío de Email para Privacidad"@,
            Locale::Fr => "Maileroo - Redirection d'emails pour la confidentialité"@,
            Locale::Pt => "Maileroo - Redirecionamento de Email para Privacidade"@,
        }
    }

    pub open spec fn site_description_text(self) -> Seq<char> {
        match self {
            Locale::En => "Protect your identity with temporary and permanent email aliases. Forward emails securely and stay private."@,
            Locale::Es => "Protege tu identidad con alias de email temporales y permanentes. Reenvía correos de forma segura y mantén tu privacidad."@,
            Locale::Fr => "Protégez votre identité avec des alias d'e-mail temporaires et permanents. Redirigez vos e-mails en toute sécurité et restez anonyme."@,
            Locale::Pt => "Proteja a sua identidade com alias de e-mail temporários e permanentes. Redirecione e-mails de forma segura e mantenha a sua privacidade."@,
        }
    }

    pub open spec fn replies_title_text(self) -> Seq<char> {
        match self {
            Locale::En => "Replies"@,
            Locale::Es => "Respuestas"@,
            Locale::Fr => "Réponses"@,
            Locale::Pt => "Respostas"@,
        }
    }

    pub open spec fn reply_form_title_text(self) -> Seq<char> {
        match self {
            Locale::En => "Send a Reply"@,
            Locale::Es => "Enviar una Respuesta"@,
            Locale::Fr => "Envoyer une réponse"@,
            Locale::Pt => "Enviar uma Resposta"@,
        }
    }

    pub open spec fn reply_placeholder_text(self) -> Seq<char> {
        match self {
            Locale::En => "Type your reply here..."@,
            Locale::Es => "Escribe tu respuesta aquí..."@,
            Locale::Fr => "Tapez votre réponse ici..."@,
            Locale::Pt => "Digite sua resposta aqui..."@,
        }
    }

    pub open spec fn send_reply_button_text(self) -> Seq<char> {
        match self {
            Locale::En => "Send Reply"@,
            Locale::Es => "Enviar Respuesta"@,
            Locale::Fr => "Envoyer la réponse"@,
            Locale::Pt => "Enviar Resposta"@,
        }
    }

    pub open spec fn you_replied_text(self) -> Seq<char> {
        match self {
            Locale::En => "You replied"@,
            Locale::Es => "Respondiste"@,
            Locale::Fr => "Vous avez répondu"@,
            Locale::Pt => "Você respondeu"@,
        }
    }

    pub open spec fn api_keys_title_text(self) -> Seq<char> {
        match self {
            Locale::En => "API Keys"@,
            Locale::Es => "Claves de API"@,
            Locale::Fr => "Clés API"@,
            Locale::Pt => "Chaves de API"@,
        }
    }

    pub open spec fn api_keys_subtitle_text(self) -> Seq<char> {
        match self {
            Locale::En => "Manage your API keys for programmatic access to Maily."@,
            Locale::Es => "Gestiona tus claves de API para el acceso programático a Maily."@,
            Locale::Fr => "Gérez vos clés API pour un accès programmatique à Maily."@,
            Locale::Pt => "Gira as suas chaves de API para acesso programático ao Maily."@,
        }
    }

    pub open spec fn api_key_success_text(self) -> Seq<char> {
        match self {
            Locale::En => "Success!"@,
            Locale::Es => "¡Éxito!"@,
            Locale::Fr => "Succès !"@,
            Locale::Pt => "Sucesso!"@,
        }
    }

    pub open spec fn api_key_copy_warning_text(self) -> Seq<char> {
        match self {
            Locale::En => "Your new API key has been generated. Copy it now - you won't be able to see it again!"@,
            Locale::Es => "Tu nueva clave de API ha sido generada. Copiala ahora - ¡no podrás volver a verla!"@,
            Locale::Fr => "Votre nouvelle clé API a été générée. Copiez-la maintenant - vous ne pourrez plus la revoir !"@,
            Locale::Pt => "A sua nova chave de API foi gerada. Copie-a agora - não poderá vê-la novamente!"@,
        }
    }

    pub open spec fn create_key_title_text(self) -> Seq<char> {
        match self {
            Locale::En => "Create New Key"@,
            Locale::Es => "Crear Nueva Clave"@,
            Locale::Fr => "Créer une nouvelle clé"@,
            Locale::Pt => "Criar Nova Chave"@,
        }
    }

    pub open spec fn key_name_label_text(self) -> Seq<char> {
        match self {
            Locale::En => "Key Name"@,
            Locale::Es => "Nombre de la Clave"@,
            Locale::Fr => "Nom de la clé"@,
            Locale::Pt => "Nome da Chave"@,
        }
    }

    pub open spec fn key_name_placeholder_text(self) -> Seq<char> {
        match self {
            Locale::En => "e.g. CI/CD Pipeline"@,
            Locale::Es => "ej. CI/CD Pipeline"@,
            Locale::Fr => "ex. Pipeline CI/CD"@,
            Locale::Pt => "ex. Pipeline CI/CD"@,
        }
    }

    pub open spec fn generate_key_button_text(self) -> Seq<char> {
        match self {
            Locale::En => "Generate API Key"@,
            Locale::Es => "Generar Clave de API"@,
            Locale::Fr => "Générer la clé API"@,
            Locale::Pt => "Gerar Chave de API"@,
        }
    }

    pub open spec fn created_on_label_text(self, date: Seq<char>) -> Seq<char> {
        match self {
            Locale::En => "Created on "@ + date,
            Locale::Es => "Creada el "@ + date,
            Locale::Fr => "Créée le "@ + date,
            Locale::Pt => "Criada em "@ + date,
        }
    }

    pub open spec fn revoke_button_text(self) -> Seq<char> {
        match self {
            Locale::En => "Revoke"@,
            Locale::Es => "Revocar"@,
            Locale::Fr => "Révoquer"@,
            Locale::Pt => "Revogar"@,
        }
    }

    pub open spec fn revoke_confirm_text(self) -> Seq<char> {
        match self {
            Locale::En => "Are you sure you want to revoke this API key?"@,
            Locale::Es => "¿Estás seguro de que quieres revocar esta clave de API?"@,
            Locale::Fr => "Êtes-vous sûr de vouloir révoquer cette clé API ?"@,
            Locale::Pt => "Tem a certeza que deseja revogar esta chave de API?"@,
        }
    }

    pub open spec fn no_keys_found_text(self) -> Seq<char> {
        match self {
            Locale::En => "No API keys found."@,
            Locale::Es => "No se encontraron claves de API."@,
            Locale::Fr => "Aucune clé API trouvée."@,
            Locale::Pt => "Nenhuma chave de API encontrada."@,
        }
    }

    pub open spec fn modal_cancel_text(self) -> Seq<char> {
        match self {
            Locale::En => "Cancel"@,
            Locale::Es => "Cancelar"@,
            Locale::Fr => "Annuler"@,
            Locale::Pt => "Cancelar"@,
        }
    }

    pub open spec fn modal_delete_confirm_text(self) -> Seq<char> {
        match self {
            Locale::En => "Yes, Delete"@,
            Locale::Es => "Sí, Eliminar"@,
            Locale::Fr => "Oui, supprimer"@,
            Locale::Pt => "Sim, Eliminar"@,
        }
    }

    pub open spec fn delete_alias_title_text(self) -> Seq<char> {
        match self {
            Locale::En => "Delete Alias"@,
            Locale::Es => "Eliminar Alias"@,
            Locale::Fr => "Supprimer l'alias"@,
            Locale::Pt => "Eliminar Alias"@,
        }
    }

    pub open spec fn delete_alias_message_text(self, alias: Seq<char>) -> Seq<char> {
        match self {
            Locale::En => "Are you sure you want to delete the alias <strong>"@ + escape_html(alias) + "</strong>?<br><br>You will no longer receive emails that are sent to this alias (and other users may use this address)"@,
            Locale::Es => "¿Estás seguro de que quieres eliminar el alias <strong>"@ + escape_html(alias) + "</strong>?<br><br>Ya no recibirás los correos enviados a este alias (y otros usuarios podrán usar esta dirección)"@,
            Locale::Fr => "Êtes-vous sûr de vouloir supprimer l'alias <strong>"@ + escape_html(alias) + "</strong> ?<br><br>Vous ne recevrez plus les e-mails envoyés à cet alias (et d'autres utilisateurs pourront utiliser cette adresse)"@,
            Locale::Pt => "Tem a certeza que deseja eliminar o alias <strong>"@ + escape_html(alias) + "</strong>?<br><br>Deixará de receber e-mails enviados para este alias (e outros utilizadores poderão utilizar este endereço)"@,
        }
    }

    pub open spec fn delete_email_title_text(self) -> Seq<char> {
        match self {
            Locale::En => "Delete Email"@,
            Locale::Es => "Eliminar Correo"@,
            Locale::Fr => "Supprimer l'e-mail"@,
            Locale::Pt => "Eliminar E-mail"@,
        }
    }

    pub open spec fn delete_email_message_text(self, subject: Seq<char>) -> Seq<char> {
        match self {
            Locale::En => "Are you sure you want to delete the email with subject: <strong>"@ + escape_html(subject) + "</strong>?"@,
            Locale::Es => "¿Estás seguro de que quieres eliminar el correo con asunto: <strong>"@ + escape_html(subject) + "</strong>?"@,
            Locale::Fr => "Êtes-vous sûr de vouloir supprimer l'e-mail avec l'objet : <strong>"@ + escape_html(subject) + "</strong> ?"@,
            Locale::Pt => "Tem a certeza que deseja eliminar o e-mail com o assunto: <strong>"@ + escape_html(subject) + "</strong>?"@,
        }
    }

    pub open spec fn error_alias_limit_reached_text(self, max: int) -> Seq<char> {
        match self {
            Locale::En => "You have reached the maximum limit of "@ + dec_int(max) + " aliases."@,
            Locale::Es => "Has alcanzado el límite máximo de "@ + dec_int(max) + " alias."@,
            Locale::Fr => "Vous avez atteint la limite maximale de "@ + dec_int(max) + " alias."@,
            Locale::Pt => "Atingiu o limite máximo de "@ + dec_int(max) + " alias."@,
        }
    }

    pub open spec fn error_alias_taken_text(self) -> Seq<char> {
        match self {
            Locale::En => "Sorry, this alias was just taken. Please choose another one."@,
            Locale::Es => "Lo sentimos, este alias acaba de ser ocupado. Por favor elige otro."@,
            Locale::Fr => "Désolé, cet alias vient d'être pris. Veuillez en choisir un autre."@,
            Locale::Pt => "Desculpe, este alias já foi ocupado. Por favor, escolha outro."@,
        }
    }

    pub open spec fn error_alias_reserved_text(self) -> Seq<char> {
        match self {
            Locale::En => "This alias is reserved and cannot be registered."@,
            Locale::Es => "Este alias está reservado y no puede ser registrado."@,
            Locale::Fr => "Cet alias est réservé et ne peut pas être enregistré."@,
            Locale::Pt => "Este alias está reservado e não pode ser registado."@,
        }
    }

    pub open spec fn error_alias_invalid_format_text(self) -> Seq<char> {
        match self {
            Locale::En => "Alias can only contain lowercase letters, numbers, hyphens, and dots."@,
            Locale::Es => "El alias solo puede contener letras minúsculas, números, guiones y puntos."@,
            Locale::Fr => "L'alias ne peut contenir que des lettres minuscules, des chiffres, des tirets et des points."@,
            Locale::Pt => "O alias só pode conter letras minúsculas, números, hífenes e pontos."@,
        }
    }

    pub open spec fn error_alias_too_long_text(self, max: nat) -> Seq<char> {
        match self {
            Locale::En => "Alias name is too long (maximum "@ + dec(max) + " characters)."@,
            Locale::Es => "El nombre del alias es demasiado largo (máximo "@ + dec(max) + " caracteres)."@,
            Locale::Fr => "Le nom de l'alias est trop long (maximum "@ + dec(max) + " caractères)."@,
            Locale::Pt => "O nome do alias é demasiado longo (máximo de "@ + dec(max) + " caracteres)."@,
        }
    }

    pub open spec fn email_detail_title_text(self) -> Seq<char> {
        match self {
            Locale::En => "Email Detail"@,
            Locale::Es => "Detalle del Correo"@,
            Locale::Fr => "Détails de l'e-mail"@,
            Locale::Pt => "Detalhe do E-mail"@,
        }
    }

    pub open spec fn back_to_dashboard_text(self) -> Seq<char> {
        match self {
            Locale::En => "Back to Dashboard"@,
            Locale::Es => "Volver al Panel"@,
            Locale::Fr => "Retour au tableau de bord"@,
            Locale::Pt => "Voltar ao Painel"@,
        }
    }

    pub open spec fn delete_email_button_text(self) -> Seq<char> {
        match self {
            Locale::En => "Delete Email"@,
            Locale::Es => "Eliminar Correo"@,
            Locale::Fr => "Supprimer l'e-mail"@,
            Locale::Pt => "Eliminar E-mail"@,
        }
    }

    pub open spec fn from_label_text(self) -> Seq<char> {
        match self {
            Locale::En => "From:"@,
            Locale::Es => "De:"@,
            Locale::Fr => "De :"@,
            Locale::Pt => "De:"@,
        }
    }

    pub open spec fn to_label_text(self) -> Seq<char> {
        match self {
            Locale::En => "To:"@,
            Locale::Es => "Para:"@,
            Locale::Fr => "À :"@,
            Locale::Pt => "Para:"@,
        }
    }

    pub open spec fn date_label_text(self) -> Seq<char> {
        match self {
            Locale::En => "Date:"@,
            Locale::Es => "Fecha:"@,
            Locale::Fr => "Date :"@,
            Locale::Pt => "Data:"@,
        }
    }

    pub open spec fn forwarded_label_text(self) -> Seq<char> {
        match self {
            Locale::En => "Forwarded:"@,
            Locale::Es => "Reenviado:"@,
            Locale::Fr => "Redirigé :"@,
            Locale::Pt => "Reencaminhado:"@,
        }
    }

    pub open spec fn alias_address_header_text(self) -> Seq<char> {
        match self {
            Locale::En => "Alias Address"@,
            Locale::Es => "Dirección del Alias"@,
            Locale::Fr => "Adresse de l'alias"@,
            Locale::Pt => "Endereço do Alias"@,
        }
    }

    pub open spec fn destination_header_text(self) -> Seq<char> {
        match self {
            Locale::En => "Destination"@,
            Locale::Es => "Destino"@,
            Locale::Fr => "Destination"@,
            Locale::Pt => "Destino"@,
        }
    }

    pub open spec fn auto_forward_header_text(self) -> Seq<char> {
        match self {
            Locale::En => "Auto-Forward"@,
            Locale::Es => "Reenvío Automático"@,
            Locale::Fr => "Redirection auto"@,
            Locale::Pt => "Redirecionamento Automático"@,
        }
    }

    pub open spec fn create_alias_form_title_text(self) -> Seq<char> {
        match self {
            Locale::En => "Create New Corporate Alias"@,
            Locale::Es => "Crear Nuevo Alias Corporativo"@,
            Locale::Fr => "Créer un nouvel alias d'entreprise"@,
            Locale::Pt => "Criar Novo Alias Corporativo"@,
        }
    }

    pub open spec fn select_domain_label_text(self) -> Seq<char> {
        match self {
            Locale::En => "Select Domain"@,
            Locale::Es => "Seleccionar Dominio"@,
            Locale::Fr => "Sélectionner le domaine"@,
            Locale::Pt => "Selecionar Domínio"@,
        }
    }

    pub open spec fn choose_subdomain_label_text(self) -> Seq<char> {
        match self {
            Locale::En => "Choose a Subdomain"@,
            Locale::Es => "Elegir un Subdominio"@,
            Locale::Fr => "Choisir un sous-domaine"@,
            Locale::Pt => "Escolher um Subdomínio"@,
        }
    }

    pub open spec fn custom_subdomain_label_text(self) -> Seq<char> {
        match self {
            Locale::En => "Or enter custom"@,
            Locale::Es => "O introducir personalizado"@,
            Locale::Fr => "Ou saisir un nom personnalisé"@,
            Locale::Pt => "Ou introduzir personalizado"@,
        }
    }

    pub open spec fn auto_forward_checkbox_label_text(self) -> Seq<char> {
        match self {
            Locale::En => "Auto-forward emails to my inbox"@,
            Locale::Es => "Reenviar correos a mi bandeja de entrada"@,
            Locale::Fr => "Rediriger les e-mails vers ma boîte de réception"@,
            Locale::Pt => "Redirecionar e-mails para a minha caixa de entrada"@,
        }
    }

    pub open spec fn create_alias_button_text(self) -> Seq<char> {
        match self {
            Locale::En => "Create Alias"@,
            Locale::Es => "Crear Alias"@,
            Locale::Fr => "Créer l'alias"@,
            Locale::Pt => "Criar Alias"@,
        }
    }

    pub open spec fn limit_reached_text_text(self, max: int) -> Seq<char> {
        match self {
            Locale::En => "Limit of "@ + dec_int(max) + " aliases reached."@,
            Locale::Es => "Límite de "@ + dec_int(max) + " alias alcanzado."@,
            Locale::Fr => "Limite de "@ + dec_int(max) + " alias atteinte."@,
            Locale::Pt => "Limite de "@ + dec_int(max) + " alias atingido."@,
        }
    }

    pub open spec fn copy_tooltip_text(self) -> Seq<char> {
        match self {
            Locale::En => "Copy to clipboard"@,
            Locale::Es => "Copiar al portapapeles"@,
            Locale::Fr => "Copier dans le presse-papiers"@,
            Locale::Pt => "Copiar para a área de transferência"@,
        }
    }

    pub open spec fn view_button_text(self) -> Seq<char> {
        match self {
            Locale::En => "View"@,
            Locale::Es => "Ver"@,
            Locale::Fr => "Voir"@,
            Locale::Pt => "Ver"@,
        }
    }

    pub open spec fn delete_button_text(self) -> Seq<char> {
        match self {
            Locale::En => "Delete"@,
            Locale::Es => "Eliminar"@,
            Locale::Fr => "Supprimer"@,
            Locale::Pt => "Eliminar"@,
        }
    }

    pub open spec fn status_enabled_text(self) -> Seq<char> {
        match self {
            Locale::En => "Enabled"@,
            Locale::Es => "Activado"@,
            Locale::Fr => "Activé"@,
            Locale::Pt => "Ativado"@,
        }
    }

    pub open spec fn status_disabled_text(self) -> Seq<char> {
        match self {
            Locale::En => "Disabled"@,
            Locale::Es => "Desactivado"@,
            Locale::Fr => "Désactivé"@,
            Locale::Pt => "Desativado"@,
        }
    }

    pub open spec fn status_yes_text(self) -> Seq<char> {
        match self {
            Locale::En => "Yes"@,
            Locale::Es => "Sí"@,
            Locale::Fr => "Oui"@,
            Locale::Pt => "Sim"@,
        }
    }

    pub open spec fn status_no_text(self) -> Seq<char> {
        match self {
            Locale::En => "No"@,
            Locale::Es => "No"@,
            Locale::Fr => "Non"@,
            Locale::Pt => "Não"@,
        }
    }

    pub open spec fn batch_delete_button_text(self) -> Seq<char> {
        match self {
            Locale::En => "Delete Selected"@,
            Locale::Es => "Eliminar Seleccionados"@,
            Locale::Fr => "Supprimer la sélection"@,
            Locale::Pt => "Eliminar Selecionados"@,
        }
    }

    pub open spec fn batch_delete_modal_title_text(self) -> Seq<char> {
        match self {
            Locale::En => "Delete Multiple Emails"@,
            Locale::Es => "Eliminar Múltiples Correos"@,
            Locale::Fr => "Supprimer plusieurs e-mails"@,
            Locale::Pt => "Eliminar Múltiplos E-mails"@,
        }
    }

    pub open spec fn batch_delete_modal_message_text(self, count: nat) -> Seq<char> {
        match self {
            Locale::En => "Are you sure you want to delete <strong>"@ + dec(count) + "</strong> selected emails?"@,
            Locale::Es => "¿Estás seguro de que quieres eliminar <strong>"@ + dec(count) + "</strong> correos seleccionados?"@,
            Locale::Fr => "Êtes-vous sûr de vouloir supprimer <strong>"@ + dec(count) + "</strong> e-mails sélectionnés ?"@,
            Locale::Pt => "Tem a certeza que deseja eliminar <strong>"@ + dec(count) + "</strong> e-mails selecionados?"@,
        }
    }

    pub open spec fn admin_panel_title_text(self) -> Seq<char> {
        match self {
            Locale::En => "Admin Panel"@,
            Locale::Es => "Panel de Administración"@,
            Locale::Fr => "Panneau d'administration"@,
            Locale::Pt => "Painel de Administração"@,
        }
    }

    pub open spec fn user_management_title_text(self) -> Seq<char> {
        match self {
            Locale::En => "User Management"@,
            Locale::Es => "Gestión de Usuarios"@,
            Locale::Fr => "Gestion des Utilisateurs"@,
            Locale::Pt => "Gestão de Utilizadores"@,
        }
    }

    pub open spec fn admin_total_users_text(self) -> Seq<char> {
        match self {
            Locale::En => "Total Users"@,
            Locale::Es => "Usuarios Totales"@,
            Locale::Fr => "Total des utilisateurs"@,
            Locale::Pt => "Total de Utilizadores"@,
        }
    }

    pub open spec fn admin_table_user_text(self) -> Seq<char> {
        match self {
            Locale::En => "User / Email"@,
            Locale::Es => "Usuario / Correo"@,
            Locale::Fr => "Utilisateur / E-mail"@,
            Locale::Pt => "Utilizador / E-mail"@,
        }
    }

    pub open spec fn admin_table_registered_text(self) -> Seq<char> {
        match self {
            Locale::En => "Registered"@,
            Locale::Es => "Registrado"@,
            Locale::Fr => "Inscrit"@,
            Locale::Pt => "Registado"@,
        }
    }

    pub open spec fn admin_table_aliases_text(self) -> Seq<char> {
        match self {
            Locale::En => "Aliases"@,
            Locale::Es => "Alias"@,
            Locale::Fr => "Alias"@,
            Locale::Pt => "Alias"@,
        }
    }

    pub open spec fn admin_table_emails_text(self) -> Seq<char> {
        match self {
            Locale::En => "Emails"@,
            Locale::Es => "Correos"@,
            Locale::Fr => "E-mails"@,
            Locale::Pt => "E-mails"@,
        }
    }

    pub open spec fn admin_table_last_login_ip_text(self) -> Seq<char> {
        match self {
            Locale::En => "Last Login IP"@,
            Locale::Es => "IP Último Ingreso"@,
            Locale::Fr => "Dernière IP de connexion"@,
            Locale::Pt => "IP Último Início"@,
        }
    }

    pub open spec fn admin_table_last_login_at_text(self) -> Seq<char> {
        match self {
            Locale::En => "Last Login At"@,
            Locale::Es => "Último Ingreso el"@,
            Locale::Fr => "Dernière connexion le"@,
            Locale::Pt => "Último Início em"@,
        }
    }

    pub open spec fn admin_table_bypass_limit_text(self) -> Seq<char> {
        match self {
            Locale::En => "Bypass Limit"@,
            Locale::Es => "Ignorar Límite"@,
            Locale::Fr => "Ignorer la Limite"@,
            Locale::Pt => "Ignorar Limite"@,
        }
    }

    pub open spec fn admin_table_disable_autoclean_text(self) -> Seq<char> {
        match self {
            Locale::En => "Keep All Emails"@,
            Locale::Es => "Conservar Emails"@,
            Locale::Fr => "Conserver Emails"@,
            Locale::Pt => "Manter Emails"@,
        }
    }

    pub open spec fn admin_table_outbound_email_text(self) -> Seq<char> {
        match self {
            Locale::En => "Outbound Email"@,
            Locale::Es => "Envío de Correos"@,
            Locale::Fr => "Envoi d'E-mails"@,
            Locale::Pt => "Envio de Emails"@,
        }
    }

    pub open spec fn admin_bypass_limit_tooltip_text(self) -> Seq<char> {
        match self {
            Locale::En => "Toggle to bypass the maximum aliases limit for this user"@,
            Locale::Es => "Alternar para ignorar el límite de alias máximos para este usuario"@,
            Locale::Fr => "Basculer pour ignorer la limite d'alias maximum pour cet utilisateur"@,
            Locale::Pt => "Alternar para ignorar o limite de aliases para este utilizador"@,
        }
    }

    pub open spec fn admin_disable_autoclean_tooltip_text(self) -> Seq<char> {
        match self {
            Locale::En => "Toggle to prevent emails in this account from being automatically deleted based on retention settings."@,
            Locale::Es => "Alternar para evitar que los correos de esta cuenta sean eliminados automáticamente."@,
            Locale::Fr => "Basculer pour empêcher la suppression automatique des emails de ce compte."@,
            Locale::Pt => "Alternar para impedir que os emails desta conta sejam eliminados automaticamente."@,
        }
    }

    pub open spec fn admin_outbound_email_tooltip_text(self) -> Seq<char> {
        match self {
            Locale::En => "Toggle to allow this user to send outbound emails."@,
            Locale::Es => "Alternar para permitir que este usuario envíe correos electrónicos."@,
            Locale::Fr => "Basculer pour permettre à cet utilisateur d'envoyer des e-mails."@,
            Locale::Pt => "Alternar para permitir que este utilizador envie emails."@,
        }
    }

    pub open spec fn admin_badge_admin_text(self) -> Seq<char> {
        match self {
            Locale::En => "ADMIN"@,
            Locale::Es => "ADMIN"@,
            Locale::Fr => "ADMIN"@,
            Locale::Pt => "ADMIN"@,
        }
    }

    pub open spec fn admin_never_text(self) -> Seq<char> {
        match self {
            Locale::En => "Never"@,
            Locale::Es => "Nunca"@,
            Locale::Fr => "Jamais"@,
            Locale::Pt => "Nunca"@,
        }
    }

    pub open spec fn load_remote_content_text(self) -> Seq<char> {
        match self {
            Locale::En => "Load Remote Content"@,
            Locale::Es => "Cargar contenido remoto"@,
            Locale::Fr => "Charger le contenu distant"@,
            Locale::Pt => "Carregar Conteúdo Remoto"@,
        }
    }

    pub open spec fn toast_email_sent_success_text(self) -> Seq<char> {
        match self {
            Locale::En => "Email sent successfully!"@,
            Locale::Es => "¡Correo enviado con éxito!"@,
            Locale::Fr => "E-mail envoyé avec succès !"@,
            Locale::Pt => "E-mail enviado com sucesso!"@,
        }
    }

    pub open spec fn toast_email_send_failed_text(self) -> Seq<char> {
        match self {
            Locale::En => "Failed to send email. Check logs."@,
            Locale::Es => "Error al enviar correo. Revise los logs."@,
            Locale::Fr => "Échec de l'envoi. Vérifiez les journaux."@,
            Locale::Pt => "Falha ao enviar e-mail. Verifique os logs."@,
        }
    }

    pub open spec fn toast_invalid_email_text(self) -> Seq<char> {
        match self {
            Locale::En => "Invalid recipient email address."@,
            Locale::Es => "Dirección de correo destinatario no válida."@,
            Locale::Fr => "Adresse e-mail du destinataire invalide."@,
            Locale::Pt => "Endereço de e-mail do destinatário inválido."@,
        }
    }

    pub open spec fn toast_empty_subject_text(self) -> Seq<char> {
        match self {
            Locale::En => "Subject cannot be empty."@,
            Locale::Es => "El asunto no puede estar vacío."@,
            Locale::Fr => "Le sujet ne peut pas être vide."@,
            Locale::Pt => "O assunto não pode estar vazio."@,
        }
    }

    pub open spec fn toast_alias_unauthorized_text(self) -> Seq<char> {
        match self {
            Locale::En => "Alias not found or you do not have permission to use it."@,
            Locale::Es => "Alias no encontrado o no tiene permisos para usarlo."@,
            Locale::Fr => "Alias introuvable ou vous n'avez pas la permission de l'utiliser."@,
            Locale::Pt => "Alias não encontrado ou você não tem permissão para usá-lo."@,
        }
    }

    pub open spec fn dkim_modal_title_text(self, domain: Seq<char>) -> Seq<char> {
        match self {
            Locale::En => "DKIM Configuration — "@ + domain,
            Locale::Es => "Configuración de DKIM — "@ + domain,
            Locale::Fr => "Configuration DKIM — "@ + domain,
            Locale::Pt => "Configuração DKIM — "@ + domain,
        }
    }

    pub open spec fn dkim_no_key_warning_text(self) -> Seq<char> {
        match self {
            Locale::En => "No DKIM Signature Key Configured"@,
            Locale::Es => "Sin Clave de Firma DKIM Configurada"@,
            Locale::Fr => "Aucune clé de signature DKIM configurée"@,
            Locale::Pt => "Nenhuma Chave de Assinatura DKIM Configurada"@,
        }
    }

    pub open spec fn dkim_no_key_desc_text(self) -> Seq<char> {
        match self {
            Locale::En => "This domain was created without DKIM keys. Generating a DKIM key pair is highly recommended to authenticate outgoing emails and ensure high inbox deliverability."@,
            Locale::Es => "Este dominio fue creado sin claves DKIM. Se recomienda encarecidamente generar un par de claves DKIM para autenticar los correos salientes y garantizar una alta entrega en la bandeja de entrada."@,
            Locale::Fr => "Ce domaine a été créé sans clés DKIM. La génération d'une paire de clés DKIM est fortement recommandée pour authentifier les e-mails sortants et garantir une délivrabilité élevée."@,
            Locale::Pt => "Este domínio foi criado sem chaves DKIM. Recomenda-se fortemente a geração de um par de chaves DKIM para autenticar e-mails de saída e garantir uma alta entrega na caixa de entrada."@,
        }
    }

    pub open spec fn dkim_generate_button_text(self) -> Seq<char> {
        match self {
            Locale::En => "Generate DKIM Key"@,
            Locale::Es => "Generar Clave DKIM"@,
            Locale::Fr => "Générer la clé DKIM"@,
            Locale::Pt => "Gerar Chave DKIM"@,
        }
    }

    pub open spec fn dkim_pending_title_text(self) -> Seq<char> {
        match self {
            Locale::En => "Pending DKIM Key Verification"@,
            Locale::Es => "Verificación de Clave DKIM Pendiente"@,
            Locale::Fr => "Vérification de la clé DKIM en attente"@,
            Locale::Pt => "Verificação de Chave DKIM Pendente"@,
        }
    }

    pub open spec fn dkim_rotation_active_badge_text(self) -> Seq<char> {
        match self {
            Locale::En => "Rotation Active"@,
            Locale::Es => "Rotación Activa"@,
            Locale::Fr => "Rotation active"@,
            Locale::Pt => "Rotação Ativa"@,
        }
    }

    pub open spec fn dkim_pending_desc_text(self) -> Seq<char> {
        match self {
            Locale::En => "To complete key rotation, publish this new TXT record. Old record must remain active in parallel!"@,
            Locale::Es => "Para completar la rotación de la clave, publique este nuevo registro TXT. ¡El registro anterior debe permanecer activo en paralelo!"@,
            Locale::Fr => "Pour terminer la rotation des clés, publiez ce nouvel enregistrement TXT. L'ancien enregistrement doit rester actif en parallèle !"@,
            Locale::Pt => "Para concluir a rotação da chave, publique este novo registo TXT. O registo antigo deve permanecer ativo em paralelo!"@,
        }
    }

    pub open spec fn dkim_active_title_text(self) -> Seq<char> {
        match self {
            Locale::En => "Active DKIM Configuration"@,
            Locale::Es => "Configuración DKIM Activa"@,
            Locale::Fr => "Configuration DKIM active"@,
            Locale::Pt => "Configuração DKIM Ativa"@,
        }
    }

    pub open spec fn dkim_active_desc_text(self) -> Seq<char> {
        match self {
            Locale::En => "Publish this TXT record on your domain's DNS management console (e.g. Cloudflare, Route53, GoDaddy):"@,
            Locale::Es => "Publique este registro TXT en la consola de administración de DNS de su dominio (por ejemplo, Cloudflare, Route53, GoDaddy):"@,
            Locale::Fr => "Publiez cet enregistrement TXT sur la console de gestion DNS de votre domaine (ex. Cloudflare, Route53, GoDaddy) :"@,
            Locale::Pt => "Publique este registo TXT na consola de administração de DNS do seu domínio (por exemplo, Cloudflare, Route53, GoDaddy):"@,
        }
    }

    pub open spec fn dkim_rotate_button_text(self) -> Seq<char> {
        match self {
            Locale::En => "Rotate DKIM Key"@,
            Locale::Es => "Rotar Clave DKIM"@,
            Locale::Fr => "Faire pivote la clé DKIM"@,
            Locale::Pt => "Rodar Chave DKIM"@,
        }
    }

    pub open spec fn dkim_rotate_confirm_text(self) -> Seq<char> {
        match self {
            Locale::En => "Rotating your DKIM key will generate a new key pair and selector. Your current active key will remain active until you verify the new one. Do you want to proceed?"@,
            Locale::Es => "Rotar su clave DKIM generará un nuevo par de claves y selector. Su clave activa actual permanecerá activa hasta que verifique la nueva. ¿Desea continuar?"@,
            Locale::Fr => "La rotation de votre clé DKIM générera une nouvelle paire de clés et un nouveau sélecteur. Votre clé active actuelle restera active jusqu'à ce que vous vérifiiez la nouvelle. Voulez-vous continuer ?"@,
            Locale::Pt => "Rodar a sua chave DKIM irá gerar um novo par de chaves e seletor. A sua chave ativa atual permanecerá ativa até verificar a nova. Deseja continuar?"@,
        }
    }

    pub open spec fn dkim_type_label_text(self) -> Seq<char> {
        match self {
            Locale::En => "Type"@,
            Locale::Es => "Tipo"@,
            Locale::Fr => "Type"@,
            Locale::Pt => "Tipo"@,
        }
    }

    pub open spec fn dkim_host_label_text(self) -> Seq<char> {
        match self {
            Locale::En => "Host"@,
            Locale::Es => "Host"@,
            Locale::Fr => "Hôte"@,
            Locale::Pt => "Host"@,
        }
    }

    pub open spec fn dkim_value_label_text(self) -> Seq<char> {
        match self {
            Locale::En => "Value"@,
            Locale::Es => "Valor"@,
            Locale::Fr => "Valeur"@,
            Locale::Pt => "Valor"@,
        }
    }

    pub open spec fn dkim_copy_button_text(self) -> Seq<char> {
        match self {
            Locale::En => "Copy"@,
            Locale::Es => "Copiar"@,
            Locale::Fr => "Copier"@,
            Locale::Pt => "Copiar"@,
        }
    }

    pub open spec fn dkim_ttl_notice_text(self) -> Seq<char> {
        match self {
            Locale::En => "DNS updates can take time to propagate. If verification fails initially, please check your registrar and try again shortly."@,
            Locale::Es => "Las actualizaciones de DNS pueden tardar en propagarse. Si la verificación falla inicialmente, verifique su proveedor e inténtelo de nuevo en unos minutos."@,
            Locale::Fr => "Les mises à jour DNS peuvent prendre du temps à se propager. Si la vérification échoue initialement, veuillez vérifier votre bureau d'enregistrement et réessayer sous peu."@,
            Locale::Pt => "As atualizações de DNS podem demorar a propagar-se. Se a verificação falhar inicialmente, verifique o seu registador e tente novamente em breve."@,
        }
    }

    pub open spec fn dkim_verify_button_text(self) -> Seq<char> {
        match self {
            Locale::En => "Verify & Activate"@,
            Locale::Es => "Verificar y Activar"@,
            Locale::Fr => "Vérifier & Activer"@,
            Locale::Pt => "Verificar e Ativar"@,
        }
    }

    pub open spec fn dkim_cancel_button_text(self) -> Seq<char> {
        match self {
            Locale::En => "Cancel Rotation"@,
            Locale::Es => "Cancelar Rotación"@,
            Locale::Fr => "Annuler la rotation"@,
            Locale::Pt => "Cancelar Rotação"@,
        }
    }

    pub open spec fn dkim_cancel_confirm_text(self) -> Seq<char> {
        match self {
            Locale::En => "Are you sure you want to cancel the pending DKIM rotation? Any DNS record you published for this selector will no longer be used."@,
            Locale::Es => "¿Está seguro de que desea cancelar la rotación de DKIM pendiente? Cualquier registro DNS que haya publicado para este selector ya no se utilizará."@,
            Locale::Fr => "Êtes-vous sûr de vouloir annuler la rotation DKIM en attente ? Tout enregistrement DNS que vous avez publié pour ce sélecteur ne sera plus utilisé."@,
            Locale::Pt => "Tem a certeza de que deseja cancelar a rotação de DKIM pendente? Qualquer registo DNS que tenha publicado para este seletor deixará de ser utilizado."@,
        }
    }
}

pub trait Messages {
    fn login_title(&self) -> &'static str;
    fn email_label(&self) -> &'static str;
    fn password_label(&self) -> &'static str;
    fn login_button(&self) -> &'static str;
    fn register_link_prompt(&self) -> &'static str;
    fn register_link_text(&self) -> &'static str;
    fn invalid_credentials(&self) -> &'static str;
    fn register_title(&self) -> &'static str;
    fn register_button(&self) -> &'static str;
    fn login_link_prompt(&self) -> &'static str;
    fn login_link_text(&self) -> &'static str;
    fn error_invalid_email(&self) -> &'static str;
    fn error_invalid_domain(&self) -> &'static str;
    fn error_email_taken(&self) -> &'static str;
    fn dashboard_title(&self) -> &'static str;
    fn compose_button(&self) -> &'static str;
    fn compose_from(&self) -> &'static str;
    fn compose_to(&self) -> &'static str;
    fn compose_subject(&self) -> &'static str;
    fn compose_body(&self) -> &'static str;
    fn compose_send(&self) -> &'static str;
    fn compose_sending(&self) -> &'static str;
    fn logout_button(&self) -> &'static str;
    fn stats_aliases(&self) -> &'static str;
    fn stats_domains(&self) -> &'static str;
    fn stats_emails(&self) -> &'static str;
    fn manage_aliases(&self) -> &'static str;
    fn manage_domains(&self) -> &'static str;
    fn table_sender(&self) -> &'static str;
    fn table_subject(&self) -> &'static str;
    fn table_received(&self) -> &'static str;
    fn table_forwarded(&self) -> &'static str;
    fn table_header_to(&self) -> &'static str;
    fn table_header_outbound_status(&self) -> &'static str;
    fn table_header_outbound_sent(&self) -> &'static str;
    fn table_header_outbound_updated(&self) -> &'static str;
    fn table_actions(&self) -> &'static str;
    fn no_emails(&self) -> &'static str;
    fn recent_emails_title(&self) -> &'static str;
    fn sent_emails_title(&self) -> &'static str;
    fn draft_emails_title(&self) -> &'static str;
    fn folder_inbox(&self) -> &'static str;
    fn folder_sent(&self) -> &'static str;
    fn folder_drafts(&self) -> &'static str;
    fn search_placeholder(&self) -> &'static str;
    fn pagination_previous(&self) -> &'static str;
    fn pagination_next(&self) -> &'static str;
    fn pagination_info(&self, current: &i64, total: &i64) -> String;
    fn from_all_aliases_label(&self) -> &'static str;
    fn filter_all_aliases(&self) -> &'static str;
    fn site_title(&self) -> &'static str;
    fn site_description(&self) -> &'static str;
    fn replies_title(&self) -> &'static str;
    fn reply_form_title(&self) -> &'static str;
    fn reply_placeholder(&self) -> &'static str;
    fn send_reply_button(&self) -> &'static str;
    fn you_replied(&self) -> &'static str;
    fn api_keys_title(&self) -> &'static str;
    fn api_keys_subtitle(&self) -> &'static str;
    fn api_key_success(&self) -> &'static str;
    fn api_key_copy_warning(&self) -> &'static str;
    fn create_key_title(&self) -> &'static str;
    fn key_name_label(&self) -> &'static str;
    fn key_name_placeholder(&self) -> &'static str;
    fn generate_key_button(&self) -> &'static str;
    fn created_on_label(&self, date: &str) -> String;
    fn revoke_button(&self) -> &'static str;
    fn revoke_confirm(&self) -> &'static str;
    fn no_keys_found(&self) -> &'static str;
    fn modal_cancel(&self) -> &'static str;
    fn modal_delete_confirm(&self) -> &'static str;
    fn delete_alias_title(&self) -> &'static str;
    fn delete_alias_message(&self, alias: &str) -> String;
    fn delete_email_title(&self) -> &'static str;
    fn delete_email_message(&self, subject: &str) -> String;
    fn error_alias_limit_reached(&self, max: i64) -> String;
    fn error_alias_taken(&self) -> &'static str;
    fn error_alias_reserved(&self) -> &'static str;
    fn error_alias_invalid_format(&self) -> &'static str;
    fn error_alias_too_long(&self, max: usize) -> String;
    fn email_detail_title(&self) -> &'static str;
    fn back_to_dashboard(&self) -> &'static str;
    fn delete_email_button(&self) -> &'static str;
    fn from_label(&self) -> &'static str;
    fn to_label(&self) -> &'static str;
    fn date_label(&self) -> &'static str;
    fn forwarded_label(&self) -> &'static str;
    fn alias_address_header(&self) -> &'static str;
    fn destination_header(&self) -> &'static str;
    fn auto_forward_header(&self) -> &'static str;
    fn create_alias_form_title(&self) -> &'static str;
    fn select_domain_label(&self) -> &'static str;
    fn choose_subdomain_label(&self) -> &'static str;
    fn custom_subdomain_label(&self) -> &'static str;
    fn auto_forward_checkbox_label(&self) -> &'static str;
    fn create_alias_button(&self) -> &'static str;
    fn limit_reached_text(&self, max: &i64) -> String;
    fn copy_tooltip(&self) -> &'static str;
    fn view_button(&self) -> &'static str;
    fn delete_button(&self) -> &'static str;
    fn status_enabled(&self) -> &'static str;
    fn status_disabled(&self) -> &'static str;
    fn status_yes(&self) -> &'static str;
    fn status_no(&self) -> &'static str;
    fn batch_delete_button(&self) -> &'static str;
    fn batch_delete_modal_title(&self) -> &'static str;
    fn batch_delete_modal_message(&self, count: usize) -> String;
    fn admin_panel_title(&self) -> &'static str;
    fn user_management_title(&self) -> &'static str;
    fn admin_total_users(&self) -> &'static str;
    fn admin_table_user(&self) -> &'static str;
    fn admin_table_registered(&self) -> &'static str;
    fn admin_table_aliases(&self) -> &'static str;
    fn admin_table_emails(&self) -> &'static str;
    fn admin_table_last_login_ip(&self) -> &'static str;
    fn admin_table_last_login_at(&self) -> &'static str;
    fn admin_table_bypass_limit(&self) -> &'static str;
    fn admin_table_disable_autoclean(&self) -> &'static str;
    fn admin_table_outbound_email(&self) -> &'static str;
    fn admin_bypass_limit_tooltip(&self) -> &'static str;
    fn admin_disable_autoclean_tooltip(&self) -> &'static str;
    fn admin_outbound_email_tooltip(&self) -> &'static str;
    fn admin_badge_admin(&self) -> &'static str;
    fn admin_never(&self) -> &'static str;
    fn load_remote_content(&self) -> &'static str;
    fn toast_email_sent_success(&self) -> &'static str;
    fn toast_email_send_failed(&self) -> &'static str;
    fn toast_invalid_email(&self) -> &'static str;
    fn toast_empty_subject(&self) -> &'static str;
    fn toast_alias_unauthorized(&self) -> &'static str;
    fn dkim_modal_title(&self, domain: &str) -> String;
    fn dkim_no_key_warning(&self) -> &'static str;
    fn dkim_no_key_desc(&self) -> &'static str;
    fn dkim_generate_button(&self) -> &'static str;
    fn dkim_pending_title(&self) -> &'static str;
    fn dkim_rotation_active_badge(&self) -> &'static str;
    fn dkim_pending_desc(&self) -> &'static str;
    fn dkim_active_title(&self) -> &'static str;
    fn dkim_active_desc(&self) -> &'static str;
    fn dkim_rotate_button(&self) -> &'static str;
    fn dkim_rotate_confirm(&self) -> &'static str;
    fn dkim_type_label(&self) -> &'static str;
    fn dkim_host_label(&self) -> &'static str;
    fn dkim_value_label(&self) -> &'static str;
    fn dkim_copy_button(&self) -> &'static str;
    fn dkim_ttl_notice(&self) -> &'static str;
    fn dkim_verify_button(&self) -> &'static str;
    fn dkim_cancel_button(&self) -> &'static str;
    fn dkim_cancel_confirm(&self) -> &'static str;
}

impl Messages for Locale {
    fn login_title(&self) -> (r: &'static str)
        ensures
            r@ == self.login_title_text(),
    {
        match self {
            Locale::En => "Login",
            Locale::Es => "Iniciar Sesión",
            Locale::Fr => "Connexion",
            Locale::Pt => "Entrar",
        }
    }

    fn email_label(&self) -> (r: &'static str)
        ensures
            r@ == self.email_label_text(),
    {
        match self {
            Locale::En => "Email:",
            Locale::Es => "Correo electrónico:",
            Locale::Fr => "E-mail:",
            Locale::Pt => "E-mail:",
        }
    }

    fn password_label(&self) -> (r: &'static str)
        ensures
            r@ == self.password_label_text(),
    {
        match self {
            Locale::En => "Password:",
            Locale::Es => "Contraseña:",
            Locale::Fr => "Mot de passe:",
            Locale::Pt => "Senha:",
        }
    }

    fn login_button(&self) -> (r: &'static str)
        ensures
            r@ == self.login_button_text(),
    {
        match self {
            Locale::En => "Login",
            Locale::Es => "Entrar",
            Locale::Fr => "Se connecter",
            Locale::Pt => "Entrar",
        }
    }

    fn register_link_prompt(&self) -> (r: &'static str)
        ensures
            r@ == self.register_link_prompt_text(),
    {
        match self {
            Locale::En => "Don't have an account?",
            Locale::Es => "¿No tienes una cuenta?",
            Locale::Fr => "Vous n'avez pas de compte ?",
            Locale::Pt => "Não tem uma conta?",
        }
    }

    fn register_link_text(&self) -> (r: &'static str)
        ensures
            r@ == self.register_link_text_text(),
    {
        match self {
            Locale::En => "Register here",
            Locale::Es => "Regístrate aquí",
            Locale::Fr => "Inscrivez-vous ici",
            Locale::Pt => "Registe-se aqui",
        }
    }

    fn invalid_credentials(&self) -> (r: &'static str)
        ensures
            r@ == self.invalid_credentials_text(),
    {
        match self {
            Locale::En => "Invalid email or password",
            Locale::Es => "Correo o contraseña inválidos",
            Locale::Fr => "E-mail ou mot de passe invalide",
            Locale::Pt => "E-mail ou senha inválidos",
        }
    }

    fn register_title(&self) -> (r: &'static str)
        ensures
            r@ == self.register_title_text(),
    {
        match self {
            Locale::En => "Register",
            Locale::Es => "Registro",
            Locale::Fr => "Inscription",
            Locale::Pt => "Registo",
        }
    }

    fn register_button(&self) -> (r: &'static str)
        ensures
            r@ == self.register_button_text(),
    {
        match self {
            Locale::En => "Register",
            Locale::Es => "Registrarse",
            Locale::Fr => "S'inscrire",
            Locale::Pt => "Registar",
        }
    }

    fn login_link_prompt(&self) -> (r: &'static str)
        ensures
            r@ == self.login_link_prompt_text(),
    {
        match self {
            Locale::En => "Already have an account?",
            Locale::Es => "¿Ya tienes una cuenta?",
            Locale::Fr => "Vous avez déjà un compte ?",
            Locale::Pt => "Já tem uma conta?",
        }
    }

    fn login_link_text(&self) -> (r: &'static str)
        ensures
            r@ == self.login_link_text_text(),
    {
        match self {
            Locale::En => "Login here",
            Locale::Es => "Inicia sesión aquí",
            Locale::Fr => "Connectez-vous ici",
            Locale::Pt => "Entre aqui",
        }
    }

    fn error_invalid_email(&self) -> (r: &'static str)
        ensures
            r@ == self.error_invalid_email_text(),
    {
        match self {
            Locale::En => "Invalid email",
            Locale::Es => "Correo inválido",
            Locale::Fr => "E-mail invalide",
            Locale::Pt => "E-mail inválido",
        }
    }

    fn error_invalid_domain(&self) -> (r: &'static str)
        ensures
            r@ == self.error_invalid_domain_text(),
    {
        match self {
            Locale::En => "Invalid domain",
            Locale::Es => "Dominio inválido",
            Locale::Fr => "Domaine invalide",
            Locale::Pt => "Domínio inválido",
        }
    }

    fn error_email_taken(&self) -> (r: &'static str)
        ensures
            r@ == self.error_email_taken_text(),
    {
        match self {
            Locale::En => "Email already registered",
            Locale::Es => "Este correo ya está registrado",
            Locale::Fr => "E-mail déjà enregistré",
            Locale::Pt => "E-mail já registado",
        }
    }

    fn dashboard_title(&self) -> (r: &'static str)
        ensures
            r@ == self.dashboard_title_text(),
    {
        match self {
            Locale::En => "Dashboard",
            Locale::Es => "Panel de Control",
            Locale::Fr => "Tableau de bord",
            Locale::Pt => "Painel de Controlo",
        }
    }

    fn compose_button(&self) -> (r: &'static str)
        ensures
            r@ == self.compose_button_text(),
    {
        match self {
            Locale::En => "Compose",
            Locale::Es => "Redactar",
            Locale::Fr => "Nouveau message",
            Locale::Pt => "Compor",
        }
    }

    fn compose_from(&self) -> (r: &'static str)
        ensures
            r@ == self.compose_from_text(),
    {
        match self {
            Locale::En => "From",
            Locale::Es => "De",
            Locale::Fr => "De",
            Locale::Pt => "De",
        }
    }

    fn compose_to(&self) -> (r: &'static str)
        ensures
            r@ == self.compose_to_text(),
    {
        match self {
            Locale::En => "To",
            Locale::Es => "Para",
            Locale::Fr => "À",
            Locale::Pt => "Para",
        }
    }

    fn compose_subject(&self) -> (r: &'static str)
        ensures
            r@ == self.compose_subject_text(),
    {
        match self {
            Locale::En => "Subject",
            Locale::Es => "Asunto",
            Locale::Fr => "Sujet",
            Locale::Pt => "Assunto",
        }
    }

    fn compose_body(&self) -> (r: &'static str)
        ensures
            r@ == self.compose_body_text(),
    {
        match self {
            Locale::En => "Message",
            Locale::Es => "Mensaje",
            Locale::Fr => "Message",
            Locale::Pt => "Mensagem",
        }
    }

    fn compose_send(&self) -> (r: &'static str)
        ensures
            r@ == self.compose_send_text(),
    {
        match self {
            Locale::En => "Send Email",
            Locale::Es => "Enviar Correo",
            Locale::Fr => "Envoyer",
            Locale::Pt => "Enviar Email",
        }
    }

    fn compose_sending(&self) -> (r: &'static str)
        ensures
            r@ == self.compose_sending_text(),
    {
        match self {
            Locale::En => "Sending...",
            Locale::Es => "Enviando...",
            Locale::Fr => "Envoi en cours...",
            Locale::Pt => "A enviar...",
        }
    }

    fn logout_button(&self) -> (r: &'static str)
        ensures
            r@ == self.logout_button_text(),
    {
        match self {
            Locale::En => "Logout",
            Locale::Es => "Cerrar Sesión",
            Locale::Fr => "Déconnexion",
            Locale::Pt => "Sair",
        }
    }

    fn stats_aliases(&self) -> (r: &'static str)
        ensures
            r@ == self.stats_aliases_text(),
    {
        match self {
            Locale::En => "Active Aliases",
            Locale::Es => "Alias Activos",
            Locale::Fr => "Alias actifs",
            Locale::Pt => "Alias Ativos",
        }
    }

    fn stats_domains(&self) -> (r: &'static str)
        ensures
            r@ == self.stats_domains_text(),
    {
        match self {
            Locale::En => "Connected Domains",
            Locale::Es => "Dominios Conectados",
            Locale::Fr => "Domaines connectés",
            Locale::Pt => "Domínios Conectados",
        }
    }

    fn stats_emails(&self) -> (r: &'static str)
        ensures
            r@ == self.stats_emails_text(),
    {
        match self {
            Locale::En => "Total Emails Received",
            Locale::Es => "Correos Recibidos",
            Locale::Fr => "Total des e-mails reçus",
            Locale::Pt => "Total de E-mails Recebidos",
        }
    }

    fn manage_aliases(&self) -> (r: &'static str)
        ensures
            r@ == self.manage_aliases_text(),
    {
        match self {
            Locale::En => "Manage Aliases",
            Locale::Es => "Gestionar Alias",
            Locale::Fr => "Gérer les alias",
            Locale::Pt => "Gerir alias",
        }
    }

    fn manage_domains(&self) -> (r: &'static str)
        ensures
            r@ == self.manage_domains_text(),
    {
        match self {
            Locale::En => "Manage Domains",
            Locale::Es => "Gestionar Dominios",
            Locale::Fr => "Gérer les domaines",
            Locale::Pt => "Gerir domínios",
        }
    }

    fn table_sender(&self) -> (r: &'static str)
        ensures
            r@ == self.table_sender_text(),
    {
        match self {
            Locale::En => "Sender",
            Locale::Es => "Remitente",
            Locale::Fr => "Expéditeur",
            Locale::Pt => "Remetente",
        }
    }

    fn table_subject(&self) -> (r: &'static str)
        ensures
            r@ == self.table_subject_text(),
    {
        match self {
            Locale::En => "Subject",
            Locale::Es => "Asunto",
            Locale::Fr => "Objet",
            Locale::Pt => "Assunto",
        }
    }

    fn table_received(&self) -> (r: &'static str)
        ensures
            r@ == self.table_received_text(),
    {
        match self {
            Locale::En => "Received At",
            Locale::Es => "Recibido el",
            Locale::Fr => "Reçu le",
            Locale::Pt => "Recebido em",
        }
    }

    fn table_forwarded(&self) -> (r: &'static str)
        ensures
            r@ == self.table_forwarded_text(),
    {
        match self {
            Locale::En => "Forwarded",
            Locale::Es => "Reenviado",
            Locale::Fr => "Transféré",
            Locale::Pt => "Reencaminhado",
        }
    }

    fn table_header_to(&self) -> (r: &'static str)
        ensures
            r@ == self.table_header_to_text(),
    {
        match self {
            Locale::En => "Recipient",
            Locale::Es => "Destinatario",
            Locale::Fr => "Destinataire",
            Locale::Pt => "Destinatário",
        }
    }

    fn table_header_outbound_status(&self) -> (r: &'static str)
        ensures
            r@ == self.table_header_outbound_status_text(),
    {
        match self {
            Locale::En => "Status",
            Locale::Es => "Estado",
            Locale::Fr => "Statut",
            Locale::Pt => "Estado",
        }
    }

    fn table_header_outbound_sent(&self) -> (r: &'static str)
        ensures
            r@ == self.table_header_outbound_sent_text(),
    {
        match self {
            Locale::En => "Sent At",
            Locale::Es => "Enviado el",
            Locale::Fr => "Envoyé le",
            Locale::Pt => "Enviado em",
        }
    }

    fn table_header_outbound_updated(&self) -> (r: &'static str)
        ensures
            r@ == self.table_header_outbound_updated_text(),
    {
        match self {
            Locale::En => "Last Updated",
            Locale::Es => "Última Edición",
            Locale::Fr => "Dernière modification",
            Locale::Pt => "Última Edição",
        }
    }

    fn table_actions(&self) -> (r: &'static str)
        ensures
            r@ == self.table_actions_text(),
    {
        match self {
            Locale::En => "Actions",
            Locale::Es => "Acciones",
            Locale::Fr => "Actions",
            Locale::Pt => "Ações",
        }
    }

    fn no_emails(&self) -> (r: &'static str)
        ensures
            r@ == self.no_emails_text(),
    {
        match self {
            Locale::En => "No emails received yet.",
            Locale::Es => "No se han recibido correos aún.",
            Locale::Fr => "Aucun e-mail reçu pour le moment.",
            Locale::Pt => "Nenhum e-mail recebido ainda.",
        }
    }

    fn recent_emails_title(&self) -> (r: &'static str)
        ensures
            r@ == self.recent_emails_title_text(),
    {
        match self {
            Locale::En => "Recent Emails",
            Locale::Es => "Correos Recientes",
            Locale::Fr => "E-mails récents",
            Locale::Pt => "E-mails Recentes",
        }
    }

    fn sent_emails_title(&self) -> (r: &'static str)
        ensures
            r@ == self.sent_emails_title_text(),
    {
        match self {
            Locale::En => "Sent Emails",
            Locale::Es => "Correos Enviados",
            Locale::Fr => "E-mails envoyés",
            Locale::Pt => "E-mails Enviados",
        }
    }

    fn draft_emails_title(&self) -> (r: &'static str)
        ensures
            r@ == self.draft_emails_title_text(),
    {
        match self {
            Locale::En => "Draft Emails",
            Locale::Es => "Borradores",
            Locale::Fr => "Brouillons",
            Locale::Pt => "Rascunhos",
        }
    }

    fn folder_inbox(&self) -> (r: &'static str)
        ensures
            r@ == self.folder_inbox_text(),
    {
        match self {
            Locale::En => "Inbox",
            Locale::Es => "Bandeja de Entrada",
            Locale::Fr => "Boîte de réception",
            Locale::Pt => "Caixa de Entrada",
        }
    }

    fn folder_sent(&self) -> (r: &'static str)
        ensures
            r@ == self.folder_sent_text(),
    {
        match self {
            Locale::En => "Sent",
            Locale::Es => "Enviados",
            Locale::Fr => "Envoyés",
            Locale::Pt => "Enviados",
        }
    }

    fn folder_drafts(&self) -> (r: &'static str)
        ensures
            r@ == self.folder_drafts_text(),
    {
        match self {
            Locale::En => "Drafts",
            Locale::Es => "Borradores",
            Locale::Fr => "Brouillons",
            Locale::Pt => "Rascunhos",
        }
    }

    fn search_placeholder(&self) -> (r: &'static str)
        ensures
            r@ == self.search_placeholder_text(),
    {
        match self {
            Locale::En => "Search emails...",
            Locale::Es => "Buscar correos...",
            Locale::Fr => "Rechercher des emails...",
            Locale::Pt => "Pesquisar e-mails...",
        }
    }

    fn pagination_previous(&self) -> (r: &'static str)
        ensures
            r@ == self.pagination_previous_text(),
    {
        match self {
            Locale::En => "Previous",
            Locale::Es => "Anterior",
            Locale::Fr => "Précédent",
            Locale::Pt => "Anterior",
        }
    }

    fn pagination_next(&self) -> (r: &'static str)
        ensures
            r@ == self.pagination_next_text(),
    {
        match self {
            Locale::En => "Next",
            Locale::Es => "Siguiente",
            Locale::Fr => "Suivant",
            Locale::Pt => "Seguinte",
        }
    }

    fn pagination_info(&self, current: &i64, total: &i64) -> (s: String)
        ensures
            s@ == self.pagination_info_text(*current as int, *total as int),
    {
        let mut s = String::new();
        match self {
            Locale::En => {
                push_str(&mut s, "Page ");
                push_chars(&mut s, &dec_i64(*current));
                push_str(&mut s, " of ");
                push_chars(&mut s, &dec_i64(*total));
            },
            Locale::Es => {
                push_str(&mut s, "Página ");
                push_chars(&mut s, &dec_i64(*current));
                push_str(&mut s, " de ");
                push_chars(&mut s, &dec_i64(*total));
            },
            Locale::Fr => {
                push_str(&mut s, "Page ");
                push_chars(&mut s, &dec_i64(*current));
                push_str(&mut s, " sur ");
                push_chars(&mut s, &dec_i64(*total));
            },
            Locale::Pt => {
                push_str(&mut s, "Página ");
                push_chars(&mut s, &dec_i64(*current));
                push_str(&mut s, " de ");
                push_chars(&mut s, &dec_i64(*total));
            },
        }
        s
    }

    fn from_all_aliases_label(&self) -> (r: &'static str)
        ensures
            r@ == self.from_all_aliases_label_text(),
    {
        match self {
            Locale::En => "From all aliases",
            Locale::Es => "De todos los alias",
            Locale::Fr => "De tous les alias",
            Locale::Pt => "De todos os alias",
        }
    }

    fn filter_all_aliases(&self) -> (r: &'static str)
        ensures
            r@ == self.filter_all_aliases_text(),
    {
        match self {
            Locale::En => "All Aliases",
            Locale::Es => "Todos los Alias",
            Locale::Fr => "Tous les alias",
            Locale::Pt => "Todos os Alias",
        }
    }

    fn site_title(&self) -> (r: &'static str)
        ensures
            r@ == self.site_title_text(),
    {
        match self {
            Locale::En => "Maileroo - Email Forwarder for Privacy",
            Locale::Es => "Maileroo - Reenvío de Email para Privacidad",
            Locale::Fr => "Maileroo - Redirection d'emails pour la confidentialité",
            Locale::Pt => "Maileroo - Redirecionamento de Email para Privacidade",
        }
    }

    fn site_description(&self) -> (r: &'static str)
        ensures
            r@ == self.site_description_text(),
    {
        match self {
            Locale::En => "Protect your identity with temporary and permanent email aliases. Forward emails securely and stay private.",
            Locale::Es => "Protege tu identidad con alias de email temporales y permanentes. Reenvía correos de forma segura y mantén tu privacidad.",
            Locale::Fr => "Protégez votre identité avec des alias d'e-mail temporaires et permanents. Redirigez vos e-mails en toute sécurité et restez anonyme.",
            Locale::Pt => "Proteja a sua identidade com alias de e-mail temporários e permanentes. Redirecione e-mails de forma segura e mantenha a sua privacidade.",
        }
    }

    fn replies_title(&self) -> (r: &'static str)
        ensures
            r@ == self.replies_title_text(),
    {
        match self {
            Locale::En => "Replies",
            Locale::Es => "Respuestas",
            Locale::Fr => "Réponses",
            Locale::Pt => "Respostas",
        }
    }

    fn reply_form_title(&self) -> (r: &'static str)
        ensures
            r@ == self.reply_form_title_text(),
    {
        match self {
            Locale::En => "Send a Reply",
            Locale::Es => "Enviar una Respuesta",
            Locale::Fr => "Envoyer une réponse",
            Locale::Pt => "Enviar uma Resposta",
        }
    }

    fn reply_placeholder(&self) -> (r: &'static str)
        ensures
            r@ == self.reply_placeholder_text(),
    {
        match self {
            Locale::En => "Type your reply here...",
            Locale::Es => "Escribe tu respuesta aquí...",
            Locale::Fr => "Tapez votre réponse ici...",
            Locale::Pt => "Digite sua resposta aqui...",
        }
    }

    fn send_reply_button(&self) -> (r: &'static str)
        ensures
            r@ == self.send_reply_button_text(),
    {
        match self {
            Locale::En => "Send Reply",
            Locale::Es => "Enviar Respuesta",
            Locale::Fr => "Envoyer la réponse",
            Locale::Pt => "Enviar Resposta",
        }
    }

    fn you_replied(&self) -> (r: &'static str)
        ensures
            r@ == self.you_replied_text(),
    {
        match self {
            Locale::En => "You replied",
            Locale::Es => "Respondiste",
            Locale::Fr => "Vous avez répondu",
            Locale::Pt => "Você respondeu",
        }
    }

    fn api_keys_title(&self) -> (r: &'static str)
        ensures
            r@ == self.api_keys_title_text(),
    {
        match self {
            Locale::En => "API Keys",
            Locale::Es => "Claves de API",
            Locale::Fr => "Clés API",
            Locale::Pt => "Chaves de API",
        }
    }

    fn api_keys_subtitle(&self) -> (r: &'static str)
        ensures
            r@ == self.api_keys_subtitle_text(),
    {
        match self {
            Locale::En => "Manage your API keys for programmatic access to Maily.",
            Locale::Es => "Gestiona tus claves de API para el acceso programático a Maily.",
            Locale::Fr => "Gérez vos clés API pour un accès programmatique à Maily.",
            Locale::Pt => "Gira as suas chaves de API para acesso programático ao Maily.",
        }
    }

    fn api_key_success(&self) -> (r: &'static str)
        ensures
            r@ == self.api_key_success_text(),
    {
        match self {
            Locale::En => "Success!",
            Locale::Es => "¡Éxito!",
            Locale::Fr => "Succès !",
            Locale::Pt => "Sucesso!",
        }
    }

    fn api_key_copy_warning(&self) -> (r: &'static str)
        ensures
            r@ == self.api_key_copy_warning_text(),
    {
        match self {
            Locale::En => "Your new API key has been generated. Copy it now - you won't be able to see it again!",
            Locale::Es => "Tu nueva clave de API ha sido generada. Copiala ahora - ¡no podrás volver a verla!",
            Locale::Fr => "Votre nouvelle clé API a été générée. Copiez-la maintenant - vous ne pourrez plus la revoir !",
            Locale::Pt => "A sua nova chave de API foi gerada. Copie-a agora - não poderá vê-la novamente!",
        }
    }

    fn create_key_title(&self) -> (r: &'static str)
        ensures
            r@ == self.create_key_title_text(),
    {
        match self {
            Locale::En => "Create New Key",
            Locale::Es => "Crear Nueva Clave",
            Locale::Fr => "Créer une nouvelle clé",
            Locale::Pt => "Criar Nova Chave",
        }
    }

    fn key_name_label(&self) -> (r: &'static str)
        ensures
            r@ == self.key_name_label_text(),
    {
        match self {
            Locale::En => "Key Name",
            Locale::Es => "Nombre de la Clave",
            Locale::Fr => "Nom de la clé",
            Locale::Pt => "Nome da Chave",
        }
    }

    fn key_name_placeholder(&self) -> (r: &'static str)
        ensures
            r@ == self.key_name_placeholder_text(),
    {
        match self {
            Locale::En => "e.g. CI/CD Pipeline",
            Locale::Es => "ej. CI/CD Pipeline",
            Locale::Fr => "ex. Pipeline CI/CD",
            Locale::Pt => "ex. Pipeline CI/CD",
        }
    }

    fn generate_key_button(&self) -> (r: &'static str)
        ensures
            r@ == self.generate_key_button_text(),
    {
        match self {
            Locale::En => "Generate API Key",
            Locale::Es => "Generar Clave de API",
            Locale::Fr => "Générer la clé API",
            Locale::Pt => "Gerar Chave de API",
        }
    }

    fn created_on_label(&self, date: &str) -> (s: String)
        ensures
            s@ == self.created_on_label_text(date@),
    {
        let mut s = String::new();
        match self {
            Locale::En => {
                push_str(&mut s, "Created on ");
                push_str(&mut s, date);
            },
            Locale::Es => {
                push_str(&mut s, "Creada el ");
                push_str(&mut s, date);
            },
            Locale::Fr => {
                push_str(&mut s, "Créée le ");
                push_str(&mut s, date);
            },
            Locale::Pt => {
                push_str(&mut s, "Criada em ");
                push_str(&mut s, date);
            },
        }
        s
    }

    fn revoke_button(&self) -> (r: &'static str)
        ensures
            r@ == self.revoke_button_text(),
    {
        match self {
            Locale::En => "Revoke",
            Locale::Es => "Revocar",
            Locale::Fr => "Révoquer",
            Locale::Pt => "Revogar",
        }
    }

    fn revoke_confirm(&self) -> (r: &'static str)
        ensures
            r@ == self.revoke_confirm_text(),
    {
        match self {
            Locale::En => "Are you sure you want to revoke this API key?",
            Locale::Es => "¿Estás seguro de que quieres revocar esta clave de API?",
            Locale::Fr => "Êtes-vous sûr de vouloir révoquer cette clé API ?",
            Locale::Pt => "Tem a certeza que deseja revogar esta chave de API?",
        }
    }

    fn no_keys_found(&self) -> (r: &'static str)
        ensures
            r@ == self.no_keys_found_text(),
    {
        match self {
            Locale::En => "No API keys found.",
            Locale::Es => "No se encontraron claves de API.",
            Locale::Fr => "Aucune clé API trouvée.",
            Locale::Pt => "Nenhuma chave de API encontrada.",
        }
    }

    fn modal_cancel(&self) -> (r: &'static str)
        ensures
            r@ == self.modal_cancel_text(),
    {
        match self {
            Locale::En => "Cancel",
            Locale::Es => "Cancelar",
            Locale::Fr => "Annuler",
            Locale::Pt => "Cancelar",
        }
    }

    fn modal_delete_confirm(&self) -> (r: &'static str)
        ensures
            r@ == self.modal_delete_confirm_text(),
    {
        match self {
            Locale::En => "Yes, Delete",
            Locale::Es => "Sí, Eliminar",
            Locale::Fr => "Oui, supprimer",
            Locale::Pt => "Sim, Eliminar",
        }
    }

    fn delete_alias_title(&self) -> (r: &'static str)
        ensures
            r@ == self.delete_alias_title_text(),
    {
        match self {
            Locale::En => "Delete Alias",
            Locale::Es => "Eliminar Alias",
            Locale::Fr => "Supprimer l'alias",
            Locale::Pt => "Eliminar Alias",
        }
    }

    fn delete_alias_message(&self, alias: &str) -> (s: String)
        ensures
            s@ == self.delete_alias_message_text(alias@),
    {
        let clean_alias = clean_text(alias);
        let mut s = String::new();
        match self {
            Locale::En => {
                push_str(&mut s, "Are you sure you want to delete the alias <strong>");
                push_str(&mut s, clean_alias.as_str());
                push_str(&mut s, "</strong>?<br><br>You will no longer receive emails that are sent to this alias (and other users may use this address)");
            },
            Locale::Es => {
                push_str(&mut s, "¿Estás seguro de que quieres eliminar el alias <strong>");
                push_str(&mut s, clean_alias.as_str());
                push_str(&mut s, "</strong>?<br><br>Ya no recibirás los correos enviados a este alias (y otros usuarios podrán usar esta dirección)");
            },
            Locale::Fr => {
                push_str(&mut s, "Êtes-vous sûr de vouloir supprimer l'alias <strong>");
                push_str(&mut s, clean_alias.as_str());
                push_str(&mut s, "</strong> ?<br><br>Vous ne recevrez plus les e-mails envoyés à cet alias (et d'autres utilisateurs pourront utiliser cette adresse)");
            },
            Locale::Pt => {
                push_str(&mut s, "Tem a certeza que deseja eliminar o alias <strong>");
                push_str(&mut s, clean_alias.as_str());
                push_str(&mut s, "</strong>?<br><br>Deixará de receber e-mails enviados para este alias (e outros utilizadores poderão utilizar este endereço)");
            },
        }
        s
    }

    fn delete_email_title(&self) -> (r: &'static str)
        ensures
            r@ == self.delete_email_title_text(),
    {
        match self {
            Locale::En => "Delete Email",
            Locale::Es => "Eliminar Correo",
            Locale::Fr => "Supprimer l'e-mail",
            Locale::Pt => "Eliminar E-mail",
        }
    }

    fn delete_email_message(&self, subject: &str) -> (s: String)
        ensures
            s@ == self.delete_email_message_text(subject@),
    {
        let clean_subject = clean_text(subject);
        let mut s = String::new();
        match self {
            Locale::En => {
                push_str(&mut s, "Are you sure you want to delete the email with subject: <strong>");
                push_str(&mut s, clean_subject.as_str());
                push_str(&mut s, "</strong>?");
            },
            Locale::Es => {
                push_str(&mut s, "¿Estás seguro de que quieres eliminar el correo con asunto: <strong>");
                push_str(&mut s, clean_subject.as_str());
                push_str(&mut s, "</strong>?");
            },
            Locale::Fr => {
                push_str(&mut s, "Êtes-vous sûr de vouloir supprimer l'e-mail avec l'objet : <strong>");
                push_str(&mut s, clean_subject.as_str());
                push_str(&mut s, "</strong> ?");
            },
            Locale::Pt => {
                push_str(&mut s, "Tem a certeza que deseja eliminar o e-mail com o assunto: <strong>");
                push_str(&mut s, clean_subject.as_str());
                push_str(&mut s, "</strong>?");
            },
        }
        s
    }

    fn error_alias_limit_reached(&self, max: i64) -> (s: String)
        ensures
            s@ == self.error_alias_limit_reached_text(max as int),
    {
        let mut s = String::new();
        match self {
            Locale::En => {
                push_str(&mut s, "You have reached the maximum limit of ");
                push_chars(&mut s, &dec_i64(max));
                push_str(&mut s, " aliases.");
            },
            Locale::Es => {
                push_str(&mut s, "Has alcanzado el límite máximo de ");
                push_chars(&mut s, &dec_i64(max));
                push_str(&mut s, " alias.");
            },
            Locale::Fr => {
                push_str(&mut s, "Vous avez atteint la limite maximale de ");
                push_chars(&mut s, &dec_i64(max));
                push_str(&mut s, " alias.");
            },
            Locale::Pt => {
                push_str(&mut s, "Atingiu o limite máximo de ");
                push_chars(&mut s, &dec_i64(max));
                push_str(&mut s, " alias.");
            },
        }
        s
    }

    fn error_alias_taken(&self) -> (r: &'static str)
        ensures
            r@ == self.error_alias_taken_text(),
    {
        match self {
            Locale::En => "Sorry, this alias was just taken. Please choose another one.",
            Locale::Es => "Lo sentimos, este alias acaba de ser ocupado. Por favor elige otro.",
            Locale::Fr => "Désolé, cet alias vient d'être pris. Veuillez en choisir un autre.",
            Locale::Pt => "Desculpe, este alias já foi ocupado. Por favor, escolha outro.",
        }
    }

    fn error_alias_reserved(&self) -> (r: &'static str)
        ensures
            r@ == self.error_alias_reserved_text(),
    {
        match self {
            Locale::En => "This alias is reserved and cannot be registered.",
            Locale::Es => "Este alias está reservado y no puede ser registrado.",
            Locale::Fr => "Cet alias est réservé et ne peut pas être enregistré.",
            Locale::Pt => "Este alias está reservado e não pode ser registado.",
        }
    }

    fn error_alias_invalid_format(&self) -> (r: &'static str)
        ensures
            r@ == self.error_alias_invalid_format_text(),
    {
        match self {
            Locale::En => "Alias can only contain lowercase letters, numbers, hyphens, and dots.",
            Locale::Es => "El alias solo puede contener letras minúsculas, números, guiones y puntos.",
            Locale::Fr => "L'alias ne peut contenir que des lettres minuscules, des chiffres, des tirets et des points.",
            Locale::Pt => "O alias só pode conter letras minúsculas, números, hífenes e pontos.",
        }
    }

    fn error_alias_too_long(&self, max: usize) -> (s: String)
        ensures
            s@ == self.error_alias_too_long_text(max as nat),
    {
        let mut s = String::new();
        match self {
            Locale::En => {
                push_str(&mut s, "Alias name is too long (maximum ");
                push_chars(&mut s, &dec_u64(max as u64));
                push_str(&mut s, " characters).");
            },
            Locale::Es => {
                push_str(&mut s, "El nombre del alias es demasiado largo (máximo ");
                push_chars(&mut s, &dec_u64(max as u64));
                push_str(&mut s, " caracteres).");
            },
            Locale::Fr => {
                push_str(&mut s, "Le nom de l'alias est trop long (maximum ");
                push_chars(&mut s, &dec_u64(max as u64));
                push_str(&mut s, " caractères).");
            },
            Locale::Pt => {
                push_str(&mut s, "O nome do alias é demasiado longo (máximo de ");
                push_chars(&mut s, &dec_u64(max as u64));
                push_str(&mut s, " caracteres).");
            },
        }
        s
    }

    fn email_detail_title(&self) -> (r: &'static str)
        ensures
            r@ == self.email_detail_title_text(),
    {
        match self {
            Locale::En => "Email Detail",
            Locale::Es => "Detalle del Correo",
            Locale::Fr => "Détails de l'e-mail",
            Locale::Pt => "Detalhe do E-mail",
        }
    }

    fn back_to_dashboard(&self) -> (r: &'static str)
        ensures
            r@ == self.back_to_dashboard_text(),
    {
        match self {
            Locale::En => "Back to Dashboard",
            Locale::Es => "Volver al Panel",
            Locale::Fr => "Retour au tableau de bord",
            Locale::Pt => "Voltar ao Painel",
        }
    }

    fn delete_email_button(&self) -> (r: &'static str)
        ensures
            r@ == self.delete_email_button_text(),
    {
        match self {
            Locale::En => "Delete Email",
            Locale::Es => "Eliminar Correo",
            Locale::Fr => "Supprimer l'e-mail",
            Locale::Pt => "Eliminar E-mail",
        }
    }

    fn from_label(&self) -> (r: &'static str)
        ensures
            r@ == self.from_label_text(),
    {
        match self {
            Locale::En => "From:",
            Locale::Es => "De:",
            Locale::Fr => "De :",
            Locale::Pt => "De:",
        }
    }

    fn to_label(&self) -> (r: &'static str)
        ensures
            r@ == self.to_label_text(),
    {
        match self {
            Locale::En => "To:",
            Locale::Es => "Para:",
            Locale::Fr => "À :",
            Locale::Pt => "Para:",
        }
    }

    fn date_label(&self) -> (r: &'static str)
        ensures
            r@ == self.date_label_text(),
    {
        match self {
            Locale::En => "Date:",
            Locale::Es => "Fecha:",
            Locale::Fr => "Date :",
            Locale::Pt => "Data:",
        }
    }

    fn forwarded_label(&self) -> (r: &'static str)
        ensures
            r@ == self.forwarded_label_text(),
    {
        match self {
            Locale::En => "Forwarded:",
            Locale::Es => "Reenviado:",
            Locale::Fr => "Redirigé :",
            Locale::Pt => "Reencaminhado:",
        }
    }

    fn alias_address_header(&self) -> (r: &'static str)
        ensures
            r@ == self.alias_address_header_text(),
    {
        match self {
            Locale::En => "Alias Address",
            Locale::Es => "Dirección del Alias",
            Locale::Fr => "Adresse de l'alias",
            Locale::Pt => "Endereço do Alias",
        }
    }

    fn destination_header(&self) -> (r: &'static str)
        ensures
            r@ == self.destination_header_text(),
    {
        match self {
            Locale::En => "Destination",
            Locale::Es => "Destino",
            Locale::Fr => "Destination",
            Locale::Pt => "Destino",
        }
    }

    fn auto_forward_header(&self) -> (r: &'static str)
        ensures
            r@ == self.auto_forward_header_text(),
    {
        match self {
            Locale::En => "Auto-Forward",
            Locale::Es => "Reenvío Automático",
            Locale::Fr => "Redirection auto",
            Locale::Pt => "Redirecionamento Automático",
        }
    }

    fn create_alias_form_title(&self) -> (r: &'static str)
        ensures
            r@ == self.create_alias_form_title_text(),
    {
        match self {
            Locale::En => "Create New Corporate Alias",
            Locale::Es => "Crear Nuevo Alias Corporativo",
            Locale::Fr => "Créer un nouvel alias d'entreprise",
            Locale::Pt => "Criar Novo Alias Corporativo",
        }
    }

    fn select_domain_label(&self) -> (r: &'static str)
        ensures
            r@ == self.select_domain_label_text(),
    {
        match self {
            Locale::En => "Select Domain",
            Locale::Es => "Seleccionar Dominio",
            Locale::Fr => "Sélectionner le domaine",
            Locale::Pt => "Selecionar Domínio",
        }
    }

    fn choose_subdomain_label(&self) -> (r: &'static str)
        ensures
            r@ == self.choose_subdomain_label_text(),
    {
        match self {
            Locale::En => "Choose a Subdomain",
            Locale::Es => "Elegir un Subdominio",
            Locale::Fr => "Choisir un sous-domaine",
            Locale::Pt => "Escolher um Subdomínio",
        }
    }

    fn custom_subdomain_label(&self) -> (r: &'static str)
        ensures
            r@ == self.custom_subdomain_label_text(),
    {
        match self {
            Locale::En => "Or enter custom",
            Locale::Es => "O introducir personalizado",
            Locale::Fr => "Ou saisir un nom personnalisé",
            Locale::Pt => "Ou introduzir personalizado",
        }
    }

    fn auto_forward_checkbox_label(&self) -> (r: &'static str)
        ensures
            r@ == self.auto_forward_checkbox_label_text(),
    {
        match self {
            Locale::En => "Auto-forward emails to my inbox",
            Locale::Es => "Reenviar correos a mi bandeja de entrada",
            Locale::Fr => "Rediriger les e-mails vers ma boîte de réception",
            Locale::Pt => "Redirecionar e-mails para a minha caixa de entrada",
        }
    }

    fn create_alias_button(&self) -> (r: &'static str)
        ensures
            r@ == self.create_alias_button_text(),
    {
        match self {
            Locale::En => "Create Alias",
            Locale::Es => "Crear Alias",
            Locale::Fr => "Créer l'alias",
            Locale::Pt => "Criar Alias",
        }
    }

    fn limit_reached_text(&self, max: &i64) -> (s: String)
        ensures
            s@ == self.limit_reached_text_text(*max as int),
    {
        let mut s = String::new();
        match self {
            Locale::En => {
                push_str(&mut s, "Limit of ");
                push_chars(&mut s, &dec_i64(*max));
                push_str(&mut s, " aliases reached.");
            },
            Locale::Es => {
                push_str(&mut s, "Límite de ");
                push_chars(&mut s, &dec_i64(*max));
                push_str(&mut s, " alias alcanzado.");
            },
            Locale::Fr => {
                push_str(&mut s, "Limite de ");
                push_chars(&mut s, &dec_i64(*max));
                push_str(&mut s, " alias atteinte.");
            },
            Locale::Pt => {
                push_str(&mut s, "Limite de ");
                push_chars(&mut s, &dec_i64(*max));
                push_str(&mut s, " alias atingido.");
            },
        }
        s
    }

    fn copy_tooltip(&self) -> (r: &'static str)
        ensures
            r@ == self.copy_tooltip_text(),
    {
        match self {
            Locale::En => "Copy to clipboard",
            Locale::Es => "Copiar al portapapeles",
            Locale::Fr => "Copier dans le presse-papiers",
            Locale::Pt => "Copiar para a área de transferência",
        }
    }

    fn view_button(&self) -> (r: &'static str)
        ensures
            r@ == self.view_button_text(),
    {
        match self {
            Locale::En => "View",
            Locale::Es => "Ver",
            Locale::Fr => "Voir",
            Locale::Pt => "Ver",
        }
    }

    fn delete_button(&self) -> (r: &'static str)
        ensures
            r@ == self.delete_button_text(),
    {
        match self {
            Locale::En => "Delete",
            Locale::Es => "Eliminar",
            Locale::Fr => "Supprimer",
            Locale::Pt => "Eliminar",
        }
    }

    fn status_enabled(&self) -> (r: &'static str)
        ensures
            r@ == self.status_enabled_text(),
    {
        match self {
            Locale::En => "Enabled",
            Locale::Es => "Activado",
            Locale::Fr => "Activé",
            Locale::Pt => "Ativado",
        }
    }

    fn status_disabled(&self) -> (r: &'static str)
        ensures
            r@ == self.status_disabled_text(),
    {
        match self {
            Locale::En => "Disabled",
            Locale::Es => "Desactivado",
            Locale::Fr => "Désactivé",
            Locale::Pt => "Desativado",
        }
    }

    fn status_yes(&self) -> (r: &'static str)
        ensures
            r@ == self.status_yes_text(),
    {
        match self {
            Locale::En => "Yes",
            Locale::Es => "Sí",
            Locale::Fr => "Oui",
            Locale::Pt => "Sim",
        }
    }

    fn status_no(&self) -> (r: &'static str)
        ensures
            r@ == self.status_no_text(),
    {
        match self {
            Locale::En => "No",
            Locale::Es => "No",
            Locale::Fr => "Non",
            Locale::Pt => "Não",
        }
    }

    fn batch_delete_button(&self) -> (r: &'static str)
        ensures
            r@ == self.batch_delete_button_text(),
    {
        match self {
            Locale::En => "Delete Selected",
            Locale::Es => "Eliminar Seleccionados",
            Locale::Fr => "Supprimer la sélection",
            Locale::Pt => "Eliminar Selecionados",
        }
    }

    fn batch_delete_modal_title(&self) -> (r: &'static str)
        ensures
            r@ == self.batch_delete_modal_title_text(),
    {
        match self {
            Locale::En => "Delete Multiple Emails",
            Locale::Es => "Eliminar Múltiples Correos",
            Locale::Fr => "Supprimer plusieurs e-mails",
            Locale::Pt => "Eliminar Múltiplos E-mails",
        }
    }

    fn batch_delete_modal_message(&self, count: usize) -> (s: String)
        ensures
            s@ == self.batch_delete_modal_message_text(count as nat),
    {
        let mut s = String::new();
        match self {
            Locale::En => {
                push_str(&mut s, "Are you sure you want to delete <strong>");
                push_chars(&mut s, &dec_u64(count as u64));
                push_str(&mut s, "</strong> selected emails?");
            },
            Locale::Es => {
                push_str(&mut s, "¿Estás seguro de que quieres eliminar <strong>");
                push_chars(&mut s, &dec_u64(count as u64));
                push_str(&mut s, "</strong> correos seleccionados?");
            },
            Locale::Fr => {
                push_str(&mut s, "Êtes-vous sûr de vouloir supprimer <strong>");
                push_chars(&mut s, &dec_u64(count as u64));
                push_str(&mut s, "</strong> e-mails sélectionnés ?");
            },
            Locale::Pt => {
                push_str(&mut s, "Tem a certeza que deseja eliminar <strong>");
                push_chars(&mut s, &dec_u64(count as u64));
                push_str(&mut s, "</strong> e-mails selecionados?");
            },
        }
        s
    }

    fn admin_panel_title(&self) -> (r: &'static str)
        ensures
            r@ == self.admin_panel_title_text(),
    {
        match self {
            Locale::En => "Admin Panel",
            Locale::Es => "Panel de Administración",
            Locale::Fr => "Panneau d'administration",
            Locale::Pt => "Painel de Administração",
        }
    }

    fn user_management_title(&self) -> (r: &'static str)
        ensures
            r@ == self.user_management_title_text(),
    {
        match self {
            Locale::En => "User Management",
            Locale::Es => "Gestión de Usuarios",
            Locale::Fr => "Gestion des Utilisateurs",
            Locale::Pt => "Gestão de Utilizadores",
        }
    }

    fn admin_total_users(&self) -> (r: &'static str)
        ensures
            r@ == self.admin_total_users_text(),
    {
        match self {
            Locale::En => "Total Users",
            Locale::Es => "Usuarios Totales",
            Locale::Fr => "Total des utilisateurs",
            Locale::Pt => "Total de Utilizadores",
        }
    }

    fn admin_table_user(&self) -> (r: &'static str)
        ensures
            r@ == self.admin_table_user_text(),
    {
        match self {
            Locale::En => "User / Email",
            Locale::Es => "Usuario / Correo",
            Locale::Fr => "Utilisateur / E-mail",
            Locale::Pt => "Utilizador / E-mail",
        }
    }

    fn admin_table_registered(&self) -> (r: &'static str)
        ensures
            r@ == self.admin_table_registered_text(),
    {
        match self {
            Locale::En => "Registered",
            Locale::Es => "Registrado",
            Locale::Fr => "Inscrit",
            Locale::Pt => "Registado",
        }
    }

    fn admin_table_aliases(&self) -> (r: &'static str)
        ensures
            r@ == self.admin_table_aliases_text(),
    {
        match self {
            Locale::En => "Aliases",
            Locale::Es => "Alias",
            Locale::Fr => "Alias",
            Locale::Pt => "Alias",
        }
    }

    fn admin_table_emails(&self) -> (r: &'static str)
        ensures
            r@ == self.admin_table_emails_text(),
    {
        match self {
            Locale::En => "Emails",
            Locale::Es => "Correos",
            Locale::Fr => "E-mails",
            Locale::Pt => "E-mails",
        }
    }

    fn admin_table_last_login_ip(&self) -> (r: &'static str)
        ensures
            r@ == self.admin_table_last_login_ip_text(),
    {
        match self {
            Locale::En => "Last Login IP",
            Locale::Es => "IP Último Ingreso",
            Locale::Fr => "Dernière IP de connexion",
            Locale::Pt => "IP Último Início",
        }
    }

    fn admin_table_last_login_at(&self) -> (r: &'static str)
        ensures
            r@ == self.admin_table_last_login_at_text(),
    {
        match self {
            Locale::En => "Last Login At",
            Locale::Es => "Último Ingreso el",
            Locale::Fr => "Dernière connexion le",
            Locale::Pt => "Último Início em",
        }
    }

    fn admin_table_bypass_limit(&self) -> (r: &'static str)
        ensures
            r@ == self.admin_table_bypass_limit_text(),
    {
        match self {
            Locale::En => "Bypass Limit",
            Locale::Es => "Ignorar Límite",
            Locale::Fr => "Ignorer la Limite",
            Locale::Pt => "Ignorar Limite",
        }
    }

    fn admin_table_disable_autoclean(&self) -> (r: &'static str)
        ensures
            r@ == self.admin_table_disable_autoclean_text(),
    {
        match self {
            Locale::En => "Keep All Emails",
            Locale::Es => "Conservar Emails",
            Locale::Fr => "Conserver Emails",
            Locale::Pt => "Manter Emails",
        }
    }

    fn admin_table_outbound_email(&self) -> (r: &'static str)
        ensures
            r@ == self.admin_table_outbound_email_text(),
    {
        match self {
            Locale::En => "Outbound Email",
            Locale::Es => "Envío de Correos",
            Locale::Fr => "Envoi d'E-mails",
            Locale::Pt => "Envio de Emails",
        }
    }

    fn admin_bypass_limit_tooltip(&self) -> (r: &'static str)
        ensures
            r@ == self.admin_bypass_limit_tooltip_text(),
    {
        match self {
            Locale::En => "Toggle to bypass the maximum aliases limit for this user",
            Locale::Es => "Alternar para ignorar el límite de alias máximos para este usuario",
            Locale::Fr => "Basculer pour ignorer la limite d'alias maximum pour cet utilisateur",
            Locale::Pt => "Alternar para ignorar o limite de aliases para este utilizador",
        }
    }

    fn admin_disable_autoclean_tooltip(&self) -> (r: &'static str)
        ensures
            r@ == self.admin_disable_autoclean_tooltip_text(),
    {
        match self {
            Locale::En => "Toggle to prevent emails in this account from being automatically deleted based on retention settings.",
            Locale::Es => "Alternar para evitar que los correos de esta cuenta sean eliminados automáticamente.",
            Locale::Fr => "Basculer pour empêcher la suppression automatique des emails de ce compte.",
            Locale::Pt => "Alternar para impedir que os emails desta conta sejam eliminados automaticamente.",
        }
    }

    fn admin_outbound_email_tooltip(&self) -> (r: &'static str)
        ensures
            r@ == self.admin_outbound_email_tooltip_text(),
    {
        match self {
            Locale::En => "Toggle to allow this user to send outbound emails.",
            Locale::Es => "Alternar para permitir que este usuario envíe correos electrónicos.",
            Locale::Fr => "Basculer pour permettre à cet utilisateur d'envoyer des e-mails.",
            Locale::Pt => "Alternar para permitir que este utilizador envie emails.",
        }
    }

    fn admin_badge_admin(&self) -> (r: &'static str)
        ensures
            r@ == self.admin_badge_admin_text(),
    {
        match self {
            Locale::En => "ADMIN",
            Locale::Es => "ADMIN",
            Locale::Fr => "ADMIN",
            Locale::Pt => "ADMIN",
        }
    }

    fn admin_never(&self) -> (r: &'static str)
        ensures
            r@ == self.admin_never_text(),
    {
        match self {
            Locale::En => "Never",
            Locale::Es => "Nunca",
            Locale::Fr => "Jamais",
            Locale::Pt => "Nunca",
        }
    }

    fn load_remote_content(&self) -> (r: &'static str)
        ensures
            r@ == self.load_remote_content_text(),
    {
        match self {
            Locale::En => "Load Remote Content",
            Locale::Es => "Cargar contenido remoto",
            Locale::Fr => "Charger le contenu distant",
            Locale::Pt => "Carregar Conteúdo Remoto",
        }
    }

    fn toast_email_sent_success(&self) -> (r: &'static str)
        ensures
            r@ == self.toast_email_sent_success_text(),
    {
        match self {
            Locale::En => "Email sent successfully!",
            Locale::Es => "¡Correo enviado con éxito!",
            Locale::Fr => "E-mail envoyé avec succès !",
            Locale::Pt => "E-mail enviado com sucesso!",
        }
    }

    fn toast_email_send_failed(&self) -> (r: &'static str)
        ensures
            r@ == self.toast_email_send_failed_text(),
    {
        match self {
            Locale::En => "Failed to send email. Check logs.",
            Locale::Es => "Error al enviar correo. Revise los logs.",
            Locale::Fr => "Échec de l'envoi. Vérifiez les journaux.",
            Locale::Pt => "Falha ao enviar e-mail. Verifique os logs.",
        }
    }

    fn toast_invalid_email(&self) -> (r: &'static str)
        ensures
            r@ == self.toast_invalid_email_text(),
    {
        match self {
            Locale::En => "Invalid recipient email address.",
            Locale::Es => "Dirección de correo destinatario no válida.",
            Locale::Fr => "Adresse e-mail du destinataire invalide.",
            Locale::Pt => "Endereço de e-mail do destinatário inválido.",
        }
    }

    fn toast_empty_subject(&self) -> (r: &'static str)
        ensures
            r@ == self.toast_empty_subject_text(),
    {
        match self {
            Locale::En => "Subject cannot be empty.",
            Locale::Es => "El asunto no puede estar vacío.",
            Locale::Fr => "Le sujet ne peut pas être vide.",
            Locale::Pt => "O assunto não pode estar vazio.",
        }
    }

    fn toast_alias_unauthorized(&self) -> (r: &'static str)
        ensures
            r@ == self.toast_alias_unauthorized_text(),
    {
        match self {
            Locale::En => "Alias not found or you do not have permission to use it.",
            Locale::Es => "Alias no encontrado o no tiene permisos para usarlo.",
            Locale::Fr => "Alias introuvable ou vous n'avez pas la permission de l'utiliser.",
            Locale::Pt => "Alias não encontrado ou você não tem permissão para usá-lo.",
        }
    }

    fn dkim_modal_title(&self, domain: &str) -> (s: String)
        ensures
            s@ == self.dkim_modal_title_text(domain@),
    {
        let mut s = String::new();
        match self {
            Locale::En => {
                push_str(&mut s, "DKIM Configuration — ");
                push_str(&mut s, domain);
            },
            Locale::Es => {
                push_str(&mut s, "Configuración de DKIM — ");
                push_str(&mut s, domain);
            },
            Locale::Fr => {
                push_str(&mut s, "Configuration DKIM — ");
                push_str(&mut s, domain);
            },
            Locale::Pt => {
                push_str(&mut s, "Configuração DKIM — ");
                push_str(&mut s, domain);
            },
        }
        s
    }

    fn dkim_no_key_warning(&self) -> (r: &'static str)
        ensures
            r@ == self.dkim_no_key_warning_text(),
    {
        match self {
            Locale::En => "No DKIM Signature Key Configured",
            Locale::Es => "Sin Clave de Firma DKIM Configurada",
            Locale::Fr => "Aucune clé de signature DKIM configurée",
            Locale::Pt => "Nenhuma Chave de Assinatura DKIM Configurada",
        }
    }

    fn dkim_no_key_desc(&self) -> (r: &'static str)
        ensures
            r@ == self.dkim_no_key_desc_text(),
    {
        match self {
            Locale::En => "This domain was created without DKIM keys. Generating a DKIM key pair is highly recommended to authenticate outgoing emails and ensure high inbox deliverability.",
            Locale::Es => "Este dominio fue creado sin claves DKIM. Se recomienda encarecidamente generar un par de claves DKIM para autenticar los correos salientes y garantizar una alta entrega en la bandeja de entrada.",
            Locale::Fr => "Ce domaine a été créé sans clés DKIM. La génération d'une paire de clés DKIM est fortement recommandée pour authentifier les e-mails sortants et garantir une délivrabilité élevée.",
            Locale::Pt => "Este domínio foi criado sem chaves DKIM. Recomenda-se fortemente a geração de um par de chaves DKIM para autenticar e-mails de saída e garantir uma alta entrega na caixa de entrada.",
        }
    }

    fn dkim_generate_button(&self) -> (r: &'static str)
        ensures
            r@ == self.dkim_generate_button_text(),
    {
        match self {
            Locale::En => "Generate DKIM Key",
            Locale::Es => "Generar Clave DKIM",
            Locale::Fr => "Générer la clé DKIM",
            Locale::Pt => "Gerar Chave DKIM",
        }
    }

    fn dkim_pending_title(&self) -> (r: &'static str)
        ensures
            r@ == self.dkim_pending_title_text(),
    {
        match self {
            Locale::En => "Pending DKIM Key Verification",
            Locale::Es => "Verificación de Clave DKIM Pendiente",
            Locale::Fr => "Vérification de la clé DKIM en attente",
            Locale::Pt => "Verificação de Chave DKIM Pendente",
        }
    }

    fn dkim_rotation_active_badge(&self) -> (r: &'static str)
        ensures
            r@ == self.dkim_rotation_active_badge_text(),
    {
        match self {
            Locale::En => "Rotation Active",
            Locale::Es => "Rotación Activa",
            Locale::Fr => "Rotation active",
            Locale::Pt => "Rotação Ativa",
        }
    }

    fn dkim_pending_desc(&self) -> (r: &'static str)
        ensures
            r@ == self.dkim_pending_desc_text(),
    {
        match self {
            Locale::En => "To complete key rotation, publish this new TXT record. Old record must remain active in parallel!",
            Locale::Es => "Para completar la rotación de la clave, publique este nuevo registro TXT. ¡El registro anterior debe permanecer activo en paralelo!",
            Locale::Fr => "Pour terminer la rotation des clés, publiez ce nouvel enregistrement TXT. L'ancien enregistrement doit rester actif en parallèle !",
            Locale::Pt => "Para concluir a rotação da chave, publique este novo registo TXT. O registo antigo deve permanecer ativo em paralelo!",
        }
    }

    fn dkim_active_title(&self) -> (r: &'static str)
        ensures
            r@ == self.dkim_active_title_text(),
    {
        match self {
            Locale::En => "Active DKIM Configuration",
            Locale::Es => "Configuración DKIM Activa",
            Locale::Fr => "Configuration DKIM active",
            Locale::Pt => "Configuração DKIM Ativa",
        }
    }

    fn dkim_active_desc(&self) -> (r: &'static str)
        ensures
            r@ == self.dkim_active_desc_text(),
    {
        match self {
            Locale::En => "Publish this TXT record on your domain's DNS management console (e.g. Cloudflare, Route53, GoDaddy):",
            Locale::Es => "Publique este registro TXT en la consola de administración de DNS de su dominio (por ejemplo, Cloudflare, Route53, GoDaddy):",
            Locale::Fr => "Publiez cet enregistrement TXT sur la console de gestion DNS de votre domaine (ex. Cloudflare, Route53, GoDaddy) :",
            Locale::Pt => "Publique este registo TXT na consola de administração de DNS do seu domínio (por exemplo, Cloudflare, Route53, GoDaddy):",
        }
    }

    fn dkim_rotate_button(&self) -> (r: &'static str)
        ensures
            r@ == self.dkim_rotate_button_text(),
    {
        match self {
            Locale::En => "Rotate DKIM Key",
            Locale::Es => "Rotar Clave DKIM",
            Locale::Fr => "Faire pivote la clé DKIM",
            Locale::Pt => "Rodar Chave DKIM",
        }
    }

    fn dkim_rotate_confirm(&self) -> (r: &'static str)
        ensures
            r@ == self.dkim_rotate_confirm_text(),
    {
        match self {
            Locale::En => "Rotating your DKIM key will generate a new key pair and selector. Your current active key will remain active until you verify the new one. Do you want to proceed?",
            Locale::Es => "Rotar su clave DKIM generará un nuevo par de claves y selector. Su clave activa actual permanecerá activa hasta que verifique la nueva. ¿Desea continuar?",
            Locale::Fr => "La rotation de votre clé DKIM générera une nouvelle paire de clés et un nouveau sélecteur. Votre clé active actuelle restera active jusqu'à ce que vous vérifiiez la nouvelle. Voulez-vous continuer ?",
            Locale::Pt => "Rodar a sua chave DKIM irá gerar um novo par de chaves e seletor. A sua chave ativa atual permanecerá ativa até verificar a nova. Deseja continuar?",
        }
    }

    fn dkim_type_label(&self) -> (r: &'static str)
        ensures
            r@ == self.dkim_type_label_text(),
    {
        match self {
            Locale::En => "Type",
            Locale::Es => "Tipo",
            Locale::Fr => "Type",
            Locale::Pt => "Tipo",
        }
    }

    fn dkim_host_label(&self) -> (r: &'static str)
        ensures
            r@ == self.dkim_host_label_text(),
    {
        match self {
            Locale::En => "Host",
            Locale::Es => "Host",
            Locale::Fr => "Hôte",
            Locale::Pt => "Host",
        }
    }

    fn dkim_value_label(&self) -> (r: &'static str)
        ensures
            r@ == self.dkim_value_label_text(),
    {
        match self {
            Locale::En => "Value",
            Locale::Es => "Valor",
            Locale::Fr => "Valeur",
            Locale::Pt => "Valor",
        }
    }

    fn dkim_copy_button(&self) -> (r: &'static str)
        ensures
            r@ == self.dkim_copy_button_text(),
    {
        match self {
            Locale::En => "Copy",
            Locale::Es => "Copiar",
            Locale::Fr => "Copier",
            Locale::Pt => "Copiar",
        }
    }

    fn dkim_ttl_notice(&self) -> (r: &'static str)
        ensures
            r@ == self.dkim_ttl_notice_text(),
    {
        match self {
            Locale::En => "DNS updates can take time to propagate. If verification fails initially, please check your registrar and try again shortly.",
            Locale::Es => "Las actualizaciones de DNS pueden tardar en propagarse. Si la verificación falla inicialmente, verifique su proveedor e inténtelo de nuevo en unos minutos.",
            Locale::Fr => "Les mises à jour DNS peuvent prendre du temps à se propager. Si la vérification échoue initialement, veuillez vérifier votre bureau d'enregistrement et réessayer sous peu.",
            Locale::Pt => "As atualizações de DNS podem demorar a propagar-se. Se a verificação falhar inicialmente, verifique o seu registador e tente novamente em breve.",
        }
    }

    fn dkim_verify_button(&self) -> (r: &'static str)
        ensures
            r@ == self.dkim_verify_button_text(),
    {
        match self {
            Locale::En => "Verify & Activate",
            Locale::Es => "Verificar y Activar",
            Locale::Fr => "Vérifier & Activer",
            Locale::Pt => "Verificar e Ativar",
        }
    }

    fn dkim_cancel_button(&self) -> (r: &'static str)
        ensures
            r@ == self.dkim_cancel_button_text(),
    {
        match self {
            Locale::En => "Cancel Rotation",
            Locale::Es => "Cancelar Rotación",
            Locale::Fr => "Annuler la rotation",
            Locale::Pt => "Cancelar Rotação",
        }
    }

    fn dkim_cancel_confirm(&self) -> (r: &'static str)
        ensures
            r@ == self.dkim_cancel_confirm_text(),
    {
        match self {
            Locale::En => "Are you sure you want to cancel the pending DKIM rotation? Any DNS record you published for this selector will no longer be used.",
            Locale::Es => "¿Está seguro de que desea cancelar la rotación de DKIM pendiente? Cualquier registro DNS que haya publicado para este selector ya no se utilizará.",
            Locale::Fr => "Êtes-vous sûr de vouloir annuler la rotation DKIM en attente ? Tout enregistrement DNS que vous avez publié pour ce sélecteur ne sera plus utilisé.",
            Locale::Pt => "Tem a certeza de que deseja cancelar a rotação de DKIM pendente? Qualquer registo DNS que tenha publicado para este seletor deixará de ser utilizado.",
        }
    }
}

} // verus!
