# bakome_ai_bot

The BAKOME AI-BOT assistant: a web server that answers chat messages with
a mood, a scripture quote, a reply from an AI model and, for a sad message,
a joke; that lists funding opportunities; and that sends e-mail.

- `src/` is the verified library (Verus): mood detection (`mood`), quotes
  (`faith`), jokes and the assembled reply (`reply`), the prompt and the
  fallback reply of the AI model (`ai`), the grants catalogue (`grants`),
  settings and their defaults (`config`), e-mail records and the planning
  of an outgoing message (`email`), and the inputs and answers of the HTTP
  API (`api`), over character helpers (`text`).
- `app/` is the server around it: HTTP routes, the SMTP transport, the
  HTTP call to the model, the Redis queue and the dashboard page.
- `tests/` exercises the library on concrete values.
